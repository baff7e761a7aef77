use vstd::prelude::*;
use vstd::string::StringSliceAdditionalSpecFns;
use vstd::utf8::{encode_utf8, is_char_boundary};

verus! {

broadcast use vstd::utf8::encode_utf8_valid_utf8, vstd::slice::axiom_spec_len;

/// A position in a text: the text itself and a byte offset into its UTF-8
/// encoding. The offset never exceeds the length and always falls on a
/// character boundary, so the rest of the text can always be sliced.
#[derive(Clone, Debug)]
pub struct Context {
    pub txt: String,
    pub pos: usize,
}

/// The UTF-8 encoding of a text.
pub open spec fn utf8_of(s: Seq<char>) -> Seq<u8> {
    encode_utf8(s)
}

impl Context {
    /// The bytes of the whole text.
    pub open spec fn bytes(&self) -> Seq<u8> {
        utf8_of(self.txt@)
    }

    /// The bytes not yet consumed.
    pub open spec fn rest(&self) -> Seq<u8> {
        self.bytes().subrange(self.pos as int, self.bytes().len() as int)
    }

    /// A cursor whose offset lies within the text on a character boundary.
    pub open spec fn wf(&self) -> bool {
        &&& self.pos <= self.bytes().len()
        &&& is_char_boundary(self.bytes(), self.pos as int)
        &&& self.bytes().len() <= usize::MAX
    }

    /// A cursor at the start of `txt`.
    pub fn new(txt: String) -> (r: Context)
        ensures
            r.txt@ == txt@,
            r.pos == 0,
            r.wf(),
    {
        // A slice's length fits in usize, and so does the text's.
        let _len: usize = txt.as_str().as_bytes().len();
        proof {
            vstd::utf8::is_char_boundary_start_end_of_seq(utf8_of(txt@));
        }
        Context { txt, pos: 0 }
    }

    /// A cursor at byte offset `pos` of `txt`, or `None` where that offset is
    /// past the end or inside the encoding of a character.
    pub fn at(txt: String, pos: usize) -> (r: Option<Context>)
        ensures
            r is Some <==> (pos <= utf8_of(txt@).len() && is_char_boundary(utf8_of(txt@), pos as int)),
            r matches Some(c) ==> c.txt@ == txt@ && c.pos == pos && c.wf(),
    {
        let _len: usize = txt.as_str().as_bytes().len();
        if txt.as_str().is_char_boundary(pos) {
            Some(Context { txt, pos })
        } else {
            None
        }
    }
}

} // verus!
