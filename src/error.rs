use vstd::prelude::*;

verus! {

/// What went wrong while scanning or parsing.
#[derive(Debug, Clone, Copy, PartialEq, Eq, Structural)]
pub enum ParseErrorKind {
    /// A character that starts no lexeme.
    InvalidToken,
    /// A lexeme that is not valid text. Lexemes here are cut at ASCII
    /// characters only, so the scanner never reports this.
    InvalidString,
    /// A number lexeme that cannot be read. Only digit runs are number
    /// lexemes, so the scanner never reports this.
    InvalidNumber,
    /// A run of letters other than `true`, `false` and `null`.
    InvalidValue,
    /// A string with no closing quote before a newline or the end of input.
    UnterminatedString,
    /// `next` was called with only blanks left.
    EndOfStream,
    /// A value was expected and a structural token stands there.
    NotAPrimitive,
    /// The input ended inside an object or an array.
    UnterminatedContainer,
    /// A token other than the one the grammar requires at that point.
    UnexpectedToken,
}

/// The result of a scanning or parsing step.
pub type Result<T> = std::result::Result<T, ParseError>;

/// A failure together with the 1-based source line on which it was found.
#[derive(Debug, Clone, Copy, PartialEq, Eq, Structural)]
pub struct ParseError {
    pub line: usize,
    pub kind: ParseErrorKind,
}

/// The mathematical model of a `ParseError`.
pub struct ErrorModel {
    pub kind: ParseErrorKind,
    pub line: int,
}

impl View for ParseError {
    type V = ErrorModel;

    open spec fn view(&self) -> ErrorModel {
        ErrorModel { kind: self.kind, line: self.line as int }
    }
}

impl ParseError {
    pub fn new(line: usize, kind: ParseErrorKind) -> (r: Self)
        ensures
            r.line == line,
            r.kind == kind,
    {
        Self { line, kind }
    }

    pub fn line(&self) -> (r: usize)
        ensures
            r == self.line,
    {
        self.line
    }

    pub fn kind(&self) -> (r: ParseErrorKind)
        ensures
            r == self.kind,
    {
        self.kind
    }
}

} // verus!
