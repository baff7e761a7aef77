use vstd::prelude::*;
use vstd::string::StringExecFns;
use crate::context::Context;
use crate::outcome::{Failure, ParserType, Success};

verus! {

/// What every parser offers: its family, the label it fails with, and an
/// attempt at a cursor. An attempt depends on the cursor and the parser's
/// configuration alone, so it can be retried from the same cursor.
pub trait ContextParserT<T>: Sized {
    /// The label used when this parser fails.
    spec fn spec_error_label(&self) -> Seq<char>;

    /// The family of this parser.
    spec fn spec_kind(&self) -> ParserType;

    /// Whether the configuration can be used to parse.
    spec fn spec_ready(&self) -> bool;

    /// What an attempt at byte offset `pos` of `text` returns.
    spec fn spec_outcome(&self, text: Seq<char>, pos: nat, r: Result<Success<T>, Failure>) -> bool;

    fn get_generic_error_message(&self) -> (r: String)
        ensures
            r@ == self.spec_error_label(),
    ;

    fn get_parser_type(&self) -> (r: ParserType)
        ensures
            r == self.spec_kind(),
    ;

    fn parse_from_context(&self, ctx: Context) -> (r: Result<Success<T>, Failure>)
        requires
            self.spec_ready(),
            ctx.wf(),
        ensures
            self.spec_outcome(ctx.txt@, ctx.pos as nat, r),
            r matches Ok(s) ==> s.ctx.wf() && s.ctx.txt@ == ctx.txt@ && ctx.pos <= s.ctx.pos,
            r matches Err(f) ==> f.ctx.wf() && f.ctx.txt@ == ctx.txt@,
    ;
}

/// Parsing straight from text, from its start.
pub trait StringParserT<T>: ContextParserT<T> {
    fn parse(&self, txt: &str) -> (r: Result<Success<T>, Failure>)
        requires
            self.spec_ready(),
        ensures
            self.spec_outcome(txt@, 0, r),
            r matches Ok(s) ==> s.ctx.wf() && s.ctx.txt@ == txt@,
            r matches Err(f) ==> f.ctx.wf() && f.ctx.txt@ == txt@,
    {
        self.parse_from_context(Context::new(String::from_str(txt)))
    }
}

} // verus!
