//! A small JSON front end: a character scanner that turns source text into
//! tokens, and a recursive-descent parser that turns tokens into a value tree.
//! Every function carries a contract over a mathematical model of its input.
use vstd::prelude::*;

pub mod ast;
pub mod error;
pub mod parser;
pub mod token;

use crate::ast::JsonValue;
use crate::error::{ErrorModel, ParseError};
use crate::parser::{parse_stream, values_result_model, Parser};
use crate::ast::ValueModel;
use crate::token::{StreamModel, TokenStream};

verus! {

/// What a whole source text parses to: its top-level values in order, or the
/// first failure, a scanning failure before any grammar failure.
pub open spec fn parse_source(src: Seq<char>) -> Result<Seq<ValueModel>, ErrorModel> {
    parse_stream(StreamModel { src, pos: 0, line: 1 })
}

/// Parses a whole source text into its sequence of top-level values.
///
/// Zero or more values of any kind (primitives, objects, arrays) may stand
/// one after another at the top level, with no enclosing container. This is
/// deliberately looser than strict JSON, which asks for exactly one value;
/// an empty or blank source parses to no values.
pub fn parse(source: &str) -> (r: Result<Vec<JsonValue>, ParseError>)
    requires
        source@.len() < usize::MAX,
    ensures
        values_result_model(r) == parse_source(source@),
{
    let mut parser = Parser::new(TokenStream::new(source));
    parser.parse()
}

} // verus!
