use vstd::prelude::*;
use vstd::string::StringExecFns;
use crate::context::Context;

verus! {

/// The family of a parser, used in diagnostics only.
#[derive(Clone, Copy, Debug, PartialEq, Eq, Structural)]
pub enum ParserType {
    Literal,
    Regex,
    Sequence,
    Choice,
    Repetition,
    EndOfInput,
}

/// A completed match: the value produced and the cursor just past the input
/// that was consumed.
#[derive(Clone, Debug)]
pub struct Success<T> {
    pub val: T,
    pub ctx: Context,
}

impl<T> Success<T> {
    pub fn new(val: T, ctx: Context) -> (r: Success<T>)
        ensures
            r.val == val,
            r.ctx == ctx,
    {
        Success { val, ctx }
    }
}

/// A failed attempt: what was expected, where, and which parser families were
/// tried at that point.
#[derive(Clone, Debug)]
pub struct Failure {
    pub expected: String,
    pub ctx: Context,
    pub parsers: Vec<ParserType>,
}

/// The decimal digits.
pub open spec fn digit_chars() -> Seq<char> {
    seq!['0', '1', '2', '3', '4', '5', '6', '7', '8', '9']
}

/// The decimal notation of `n`, without sign or leading zeros.
pub open spec fn decimal(n: nat) -> Seq<char>
    decreases n,
{
    if n < 10 {
        seq![digit_chars()[n as int]]
    } else {
        decimal(n / 10).push(digit_chars()[(n % 10) as int])
    }
}

/// The diagnostic of a failure to find `label` at byte offset `pos`.
pub open spec fn error_message(label: Seq<char>, pos: nat) -> Seq<char> {
    "[Parser error] Expected `"@ + label + "` at position: "@ + decimal(pos)
}

/// The one-character text of digit `d`.
fn digit_str(d: usize) -> (r: &'static str)
    requires
        d < 10,
    ensures
        r@ == seq![digit_chars()[d as int]],
{
    proof {
        reveal_strlit("0");
        reveal_strlit("1");
        reveal_strlit("2");
        reveal_strlit("3");
        reveal_strlit("4");
        reveal_strlit("5");
        reveal_strlit("6");
        reveal_strlit("7");
        reveal_strlit("8");
        reveal_strlit("9");
    }
    if d == 0 {
        "0"
    } else if d == 1 {
        "1"
    } else if d == 2 {
        "2"
    } else if d == 3 {
        "3"
    } else if d == 4 {
        "4"
    } else if d == 5 {
        "5"
    } else if d == 6 {
        "6"
    } else if d == 7 {
        "7"
    } else if d == 8 {
        "8"
    } else {
        "9"
    }
}

/// Appends the decimal notation of `n` to `s`.
pub fn push_decimal(s: &mut String, n: usize)
    ensures
        final(s)@ == old(s)@ + decimal(n as nat),
    decreases n,
{
    if n >= 10 {
        push_decimal(s, n / 10);
    }
    s.append(digit_str(n % 10));
    assert(final(s)@ =~= old(s)@ + decimal(n as nat));
}

impl Failure {
    pub fn new(expected: &String, ctx: Context, parsers: Vec<ParserType>) -> (r: Failure)
        ensures
            r.expected@ == expected@,
            r.ctx == ctx,
            r.parsers@ == parsers@,
    {
        Failure { expected: expected.clone(), ctx, parsers }
    }

    /// The diagnostic text of this failure.
    pub fn get_error_message(&self) -> (r: String)
        ensures
            r@ == error_message(self.expected@, self.ctx.pos as nat),
    {
        let mut s = String::from_str("[Parser error] Expected `");
        s.append(self.expected.as_str());
        s.append("` at position: ");
        push_decimal(&mut s, self.ctx.pos);
        proof {
            reveal_strlit("[Parser error] Expected `");
            reveal_strlit("` at position: ");
        }
        assert(s@ =~= error_message(self.expected@, self.ctx.pos as nat));
        s
    }
}

} // verus!
