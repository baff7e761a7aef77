use vstd::prelude::*;
use vstd::string::{StringExecFns, StringSliceAdditionalSpecFns};
use vstd::utf8::{is_char_boundary, valid_utf8};
use crate::context::{utf8_of, Context};
use crate::engine::{compile, find, first_match, pattern_compiles};
use crate::outcome::{error_message, Failure, ParserType, Success};
use crate::parser::{ContextParserT, StringParserT};

verus! {

broadcast use vstd::utf8::encode_utf8_valid_utf8, vstd::slice::axiom_spec_len;

/// The length in bytes of a match of `pattern` that starts exactly at the
/// beginning of `rest`, if the leftmost match starts there.
pub open spec fn anchored_len(pattern: Seq<char>, rest: Seq<u8>) -> Option<int> {
    match first_match(pattern, rest) {
        Some((s, e)) => if s == 0 { Some(e) } else { None },
        None => None,
    }
}

/// The bytes of `text` from byte offset `pos` on.
pub open spec fn rest_of(text: Seq<char>, pos: nat) -> Seq<u8> {
    utf8_of(text).subrange(pos as int, utf8_of(text).len() as int)
}

/// A parser that matches a regular expression anchored at the cursor.
/// The pattern is compiled when the parser is used, not when it is built.
#[derive(Clone)]
pub struct RegexParser {
    regex: String,
    generic_error: String,
}

proof fn lemma_boundary_shift(b: Seq<u8>, p: int, e: int)
    requires
        valid_utf8(b),
        0 <= p <= b.len(),
        is_char_boundary(b, p),
        0 <= e <= b.len() - p,
        is_char_boundary(b.subrange(p, b.len() as int), e),
    ensures
        is_char_boundary(b, p + e),
{
    let rest = b.subrange(p, b.len() as int);
    if p + e == b.len() {
        vstd::utf8::is_char_boundary_start_end_of_seq(b);
    } else {
        vstd::utf8::valid_utf8_split(b, p);
        vstd::utf8::is_char_boundary_iff_not_is_continuation_byte(rest, e);
        vstd::utf8::is_char_boundary_iff_not_is_continuation_byte(b, p + e);
        assert(rest[e] == b[p + e]);
    }
}

impl RegexParser {
    /// The pattern that this parser matches.
    pub closed spec fn pattern(&self) -> Seq<char> {
        self.regex@
    }

    /// What this parser reports as expected when it fails.
    pub closed spec fn label(&self) -> Seq<char> {
        self.generic_error@
    }

    /// A parser for `regex` that reports `expected` when it does not match.
    /// The pattern is not checked here.
    pub fn new(regex: &str, expected: &str) -> (r: RegexParser)
        ensures
            r.pattern() == regex@,
            r.label() == expected@,
    {
        RegexParser { regex: String::from_str(regex), generic_error: String::from_str(expected) }
    }

    /// Whether the pattern is one the regex engine accepts.
    pub fn is_valid(&self) -> (r: bool)
        ensures
            r == pattern_compiles(self.pattern()),
    {
        compile(self.regex.as_str()).is_some()
    }

    /// Parses `txt` from its start, or returns `None` where the pattern is
    /// not one the regex engine accepts.
    pub fn try_parse(&self, txt: &str) -> (r: Option<Result<Success<String>, Failure>>)
        ensures
            r is None <==> !pattern_compiles(self.pattern()),
            r matches Some(o) ==> self.outcome(txt@, 0, o),
    {
        if self.is_valid() {
            Some(self.parse(txt))
        } else {
            None
        }
    }

    /// What an attempt at byte offset `pos` of `text` returns.
    pub open spec fn outcome(&self, text: Seq<char>, pos: nat, r: Result<Success<String>, Failure>) -> bool {
        match anchored_len(self.pattern(), rest_of(text, pos)) {
            Some(n) => r matches Ok(s) && {
                &&& utf8_of(s.val@) == rest_of(text, pos).subrange(0, n)
                &&& utf8_of(s.val@).len() == n
                &&& s.ctx.txt@ == text
                &&& s.ctx.pos == pos + n
            },
            None => r matches Err(f) && {
                &&& f.expected@ == self.label()
                &&& f.ctx.txt@ == text
                &&& f.ctx.pos == pos
                &&& f.parsers@ == seq![ParserType::Regex]
            },
        }
    }
}

impl ContextParserT<String> for RegexParser {
    open spec fn spec_error_label(&self) -> Seq<char> {
        self.label()
    }

    open spec fn spec_kind(&self) -> ParserType {
        ParserType::Regex
    }

    open spec fn spec_ready(&self) -> bool {
        pattern_compiles(self.pattern())
    }

    open spec fn spec_outcome(&self, text: Seq<char>, pos: nat, r: Result<Success<String>, Failure>) -> bool {
        self.outcome(text, pos, r)
    }

    fn get_generic_error_message(&self) -> (r: String) {
        self.generic_error.clone()
    }

    fn get_parser_type(&self) -> (r: ParserType) {
        ParserType::Regex
    }

    /// Matches the pattern at the cursor: on success the matched text and
    /// the cursor moved past it; otherwise a failure at the cursor, unchanged.
    fn parse_from_context(&self, ctx: Context) -> (r: Result<Success<String>, Failure>) {
        let compiled = compile(self.regex.as_str());
        let c = compiled.unwrap();
        let (_, rest) = ctx.txt.as_str().split_at(ctx.pos);
        assert(rest.spec_bytes() == rest_of(ctx.txt@, ctx.pos as nat));
        if let Some((start, end)) = find(&c, rest) {
            if start == 0 {
                let (matched, _) = rest.split_at(end);
                let val = matched.to_owned();
                let pos = ctx.pos + end;
                proof {
                    lemma_boundary_shift(ctx.bytes(), ctx.pos as int, end as int);
                }
                let next = Context { txt: ctx.txt, pos };
                return Ok(Success::new(val, next));
            }
        }
        let mut kinds: Vec<ParserType> = Vec::new();
        kinds.push(ParserType::Regex);
        assert(kinds@ =~= seq![ParserType::Regex]);
        Err(Failure::new(&self.generic_error, ctx, kinds))
    }
}

impl StringParserT<String> for RegexParser {}

/// Two outcomes that carry the same value and cursor, or the same diagnostic,
/// cursor and parser families.
pub open spec fn same_result(r1: Result<Success<String>, Failure>, r2: Result<Success<String>, Failure>) -> bool {
    match (r1, r2) {
        (Ok(a), Ok(b)) => a.val@ == b.val@ && a.ctx.txt@ == b.ctx.txt@ && a.ctx.pos == b.ctx.pos,
        (Err(a), Err(b)) => {
            &&& a.expected@ == b.expected@
            &&& a.ctx.txt@ == b.ctx.txt@
            &&& a.ctx.pos == b.ctx.pos
            &&& a.parsers@ == b.parsers@
        },
        _ => false,
    }
}

/// Attempting the same parser twice at the same cursor gives the same
/// result both times.
pub proof fn lemma_attempt_idempotent(
    p: RegexParser,
    text: Seq<char>,
    pos: nat,
    r1: Result<Success<String>, Failure>,
    r2: Result<Success<String>, Failure>,
)
    requires
        p.outcome(text, pos, r1),
        p.outcome(text, pos, r2),
    ensures
        same_result(r1, r2),
{
    if let (Ok(a), Ok(b)) = (r1, r2) {
        vstd::utf8::encode_utf8_decode_utf8(a.val@);
        vstd::utf8::encode_utf8_decode_utf8(b.val@);
    }
}

/// Where a match of length `n` starts at the cursor, the attempt succeeds with
/// exactly the matched text and moves the cursor by its length.
pub proof fn lemma_match_advances(
    p: RegexParser,
    text: Seq<char>,
    pos: nat,
    n: int,
    r: Result<Success<String>, Failure>,
)
    requires
        p.outcome(text, pos, r),
        anchored_len(p.pattern(), rest_of(text, pos)) == Some(n),
    ensures
        r is Ok,
        utf8_of(r->Ok_0.val@) == rest_of(text, pos).subrange(0, n),
        r->Ok_0.ctx.pos == pos + utf8_of(r->Ok_0.val@).len(),
        r->Ok_0.ctx.txt@ == text,
{
}

/// A failed attempt leaves the cursor where it was.
pub proof fn lemma_failure_keeps_position(
    p: RegexParser,
    text: Seq<char>,
    pos: nat,
    r: Result<Success<String>, Failure>,
)
    requires
        p.outcome(text, pos, r),
        r is Err,
    ensures
        r->Err_0.ctx.pos == pos,
        r->Err_0.ctx.txt@ == text,
{
}

/// Where no match starts at the cursor, the attempt fails there, and its
/// diagnostic names the parser's label and the cursor's offset.
pub proof fn lemma_failure_message(
    p: RegexParser,
    text: Seq<char>,
    pos: nat,
    r: Result<Success<String>, Failure>,
)
    requires
        p.outcome(text, pos, r),
        anchored_len(p.pattern(), rest_of(text, pos)) is None,
    ensures
        r is Err,
        r->Err_0.ctx.pos == pos,
        error_message(r->Err_0.expected@, r->Err_0.ctx.pos as nat) == error_message(p.label(), pos),
{
}

} // verus!
