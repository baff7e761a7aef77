//! A small parser-combinator core: a byte-offset cursor over text, the two
//! outcome shapes of a parse attempt, the parser contract, and a leaf parser
//! that matches a regular expression anchored at the cursor.
pub mod context;
pub mod engine;
pub mod outcome;
pub mod parser;
pub mod regex_parser;

pub use context::Context;
pub use outcome::{Failure, ParserType, Success};
pub use parser::{ContextParserT, StringParserT};
pub use regex_parser::RegexParser;
