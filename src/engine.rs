use vstd::prelude::*;
use vstd::string::StringSliceAdditionalSpecFns;
use vstd::utf8::is_char_boundary;

verus! {

#[verifier::external_type_specification]
#[verifier::external_body]
pub struct ExRegex(regex::Regex);

/// Whether the regex engine accepts `pattern` (its syntax is valid and the
/// compiled program stays within the default size limit).
pub uninterp spec fn pattern_compiles(pattern: Seq<char>) -> bool;

/// The byte range of the leftmost-first match of `pattern` in the UTF-8 text
/// `hay`, if there is one.
pub uninterp spec fn first_match(pattern: Seq<char>, hay: Seq<u8>) -> Option<(int, int)>;

/// A compiled pattern, paired with the pattern text it was compiled from.
pub struct Compiled {
    re: regex::Regex,
    source: Ghost<Seq<char>>,
}

impl Compiled {
    pub closed spec fn pattern(&self) -> Seq<char> {
        self.source@
    }
}

/// Relies on regex::Regex::new: it fails exactly on the patterns that the
/// engine does not accept, and the regex it returns searches for `pattern`.
#[verifier::external_body]
pub fn compile(pattern: &str) -> (r: Option<Compiled>)
    ensures
        r is Some <==> pattern_compiles(pattern@),
        r matches Some(c) ==> c.pattern() == pattern@,
{
    regex::Regex::new(pattern).ok().map(|re| Compiled { re, source: Ghost(pattern@) })
}

/// Relies on regex::Regex::find: the first match, as byte offsets into `hay`
/// with start <= end, both on character boundaries of `hay`.
#[verifier::external_body]
pub fn find(c: &Compiled, hay: &str) -> (r: Option<(usize, usize)>)
    ensures
        r is Some <==> first_match(c.pattern(), hay.spec_bytes()) is Some,
        r matches Some((s, e)) ==> {
            &&& first_match(c.pattern(), hay.spec_bytes()) == Some((s as int, e as int))
            &&& s <= e <= hay.spec_bytes().len()
            &&& is_char_boundary(hay.spec_bytes(), s as int)
            &&& is_char_boundary(hay.spec_bytes(), e as int)
        },
{
    c.re.find(hay).map(|m| (m.start(), m.end()))
}

} // verus!
