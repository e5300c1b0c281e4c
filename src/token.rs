use vstd::prelude::*;

use crate::error::{ErrorModel, ParseError, ParseErrorKind};
use vstd::std_specs::iter::IteratorSpec;
use vstd::string::StrSliceExecFns;

verus! {

// ---------------------------------------------------------------------------
// Mathematical model of the scanner
// ---------------------------------------------------------------------------
/// The model of a token kind: string and number lexemes as character sequences.
pub enum KindModel {
    LeftCurlyBracket,
    RightCurlyBracket,
    LeftSquareBracket,
    RightSquareBracket,
    Comma,
    Colon,
    Str(Seq<char>),
    Num(Seq<char>),
    True,
    False,
    Null,
}

/// The model of a token: its kind and the line on which it starts.
pub struct TokenModel {
    pub kind: KindModel,
    pub line: int,
}

/// The model of a token stream: the source characters, the read cursor and
/// the current line.
pub struct StreamModel {
    pub src: Seq<char>,
    pub pos: int,
    pub line: int,
}

pub open spec fn is_digit(c: char) -> bool {
    '0' <= c && c <= '9'
}

pub open spec fn is_letter(c: char) -> bool {
    ('a' <= c && c <= 'z') || ('A' <= c && c <= 'Z')
}

/// Characters that advance the line counter when skipped.
pub open spec fn is_line_break(c: char) -> bool {
    c == '\n' || c == '\r' || c == '\t'
}

/// Characters skipped between tokens.
pub open spec fn is_blank(c: char) -> bool {
    c == ' ' || is_line_break(c)
}

/// The kind of a one-character structural token, if `c` is one.
pub open spec fn structural_kind(c: char) -> Option<KindModel> {
    if c == '{' {
        Some(KindModel::LeftCurlyBracket)
    } else if c == '}' {
        Some(KindModel::RightCurlyBracket)
    } else if c == '[' {
        Some(KindModel::LeftSquareBracket)
    } else if c == ']' {
        Some(KindModel::RightSquareBracket)
    } else if c == ',' {
        Some(KindModel::Comma)
    } else if c == ':' {
        Some(KindModel::Colon)
    } else {
        None
    }
}

/// Number of line-break characters in `s`.
pub open spec fn count_line_breaks(s: Seq<char>) -> nat
    decreases s.len(),
{
    if s.len() == 0 {
        0
    } else {
        count_line_breaks(s.drop_first()) + if is_line_break(s[0]) {
            1nat
        } else {
            0nat
        }
    }
}

/// Cursor and line after skipping the blanks that start at `pos`.
pub open spec fn skip_blank(src: Seq<char>, pos: int, line: int) -> (int, int)
    decreases src.len() - pos,
{
    if 0 <= pos < src.len() && is_blank(src[pos]) {
        skip_blank(src, pos + 1, if is_line_break(src[pos]) { line + 1 } else { line })
    } else {
        (pos, line)
    }
}

/// End of the maximal run of ASCII digits that starts at `pos`.
pub open spec fn digit_run_end(src: Seq<char>, pos: int) -> int
    decreases src.len() - pos,
{
    if 0 <= pos < src.len() && is_digit(src[pos]) {
        digit_run_end(src, pos + 1)
    } else {
        pos
    }
}

/// End of the maximal run of ASCII letters that starts at `pos`.
pub open spec fn letter_run_end(src: Seq<char>, pos: int) -> int
    decreases src.len() - pos,
{
    if 0 <= pos < src.len() && is_letter(src[pos]) {
        letter_run_end(src, pos + 1)
    } else {
        pos
    }
}

/// First position at or after `pos` that holds a quote or a newline, or the
/// end of the source.
pub open spec fn string_stop(src: Seq<char>, pos: int) -> int
    decreases src.len() - pos,
{
    if 0 <= pos < src.len() && src[pos] != '"' && src[pos] != '\n' {
        string_stop(src, pos + 1)
    } else {
        pos
    }
}

/// The literal named by a letter run, if any.
pub open spec fn literal_kind(w: Seq<char>) -> Option<KindModel> {
    if w == seq!['t', 'r', 'u', 'e'] {
        Some(KindModel::True)
    } else if w == seq!['f', 'a', 'l', 's', 'e'] {
        Some(KindModel::False)
    } else if w == seq!['n', 'u', 'l', 'l'] {
        Some(KindModel::Null)
    } else {
        None
    }
}

/// The lexeme that starts at `pos` (which holds no blank): its kind or the
/// failure, and the cursor after it.
pub open spec fn lex_at(src: Seq<char>, pos: int) -> (Result<KindModel, ParseErrorKind>, int) {
    if pos < 0 || pos >= src.len() {
        (Err(ParseErrorKind::EndOfStream), pos)
    } else {
        let c = src[pos];
        if structural_kind(c) is Some {
            (Ok(structural_kind(c)->0), pos + 1)
        } else if c == '"' {
            let q = string_stop(src, pos + 1);
            if q < src.len() && src[q] == '"' {
                (Ok(KindModel::Str(src.subrange(pos, q + 1))), q + 1)
            } else {
                (Err(ParseErrorKind::UnterminatedString), q)
            }
        } else if is_digit(c) {
            let e = digit_run_end(src, pos);
            (Ok(KindModel::Num(src.subrange(pos, e))), e)
        } else if is_letter(c) {
            let e = letter_run_end(src, pos);
            match literal_kind(src.subrange(pos, e)) {
                Some(k) => (Ok(k), e),
                None => (Err(ParseErrorKind::InvalidValue), e),
            }
        } else {
            (Err(ParseErrorKind::InvalidToken), pos)
        }
    }
}

/// One scan step from cursor `pos` on line `line`: skip blanks, then read one
/// lexeme. Gives the token or the failure, and the new cursor and line.
pub open spec fn scan_step(src: Seq<char>, pos: int, line: int) -> (
    Result<TokenModel, ErrorModel>,
    int,
    int,
) {
    let (p, l) = skip_blank(src, pos, line);
    let (r, e) = lex_at(src, p);
    match r {
        Ok(k) => (Ok(TokenModel { kind: k, line: l }), e, l),
        Err(k) => (Err(ErrorModel { kind: k, line: l }), e, l),
    }
}

/// What `next` gives from the stream state `m`, and the state after it.
pub open spec fn next_model(m: StreamModel) -> (Result<TokenModel, ErrorModel>, StreamModel) {
    let (r, p, l) = scan_step(m.src, m.pos, m.line);
    (r, StreamModel { src: m.src, pos: p, line: l })
}

/// What `peek` gives from the stream state `m`, and the state after it.
pub open spec fn peek_model(m: StreamModel) -> (Result<TokenModel, ErrorModel>, StreamModel) {
    (next_model(m).0, m)
}

/// The whole token sequence from cursor `pos` on line `line` to the end of the
/// source, or the first failure. (A token always ends after the cursor and
/// inside the source, `lemma_lex_at`; the bound on `e` states that for the
/// termination check.)
pub open spec fn scan_from(src: Seq<char>, pos: int, line: int) -> Result<
    Seq<TokenModel>,
    ErrorModel,
>
    decreases src.len() - pos,
{
    let (p, l) = skip_blank(src, pos, line);
    if p < 0 || p >= src.len() {
        Ok(Seq::empty())
    } else {
        let (r, e) = lex_at(src, p);
        match r {
            Ok(k) => if pos < e <= src.len() {
                match scan_from(src, e, l) {
                    Ok(rest) => Ok(seq![TokenModel { kind: k, line: l }] + rest),
                    Err(x) => Err(x),
                }
            } else {
                Ok(Seq::empty())
            },
            Err(k) => Err(ErrorModel { kind: k, line: l }),
        }
    }
}

/// The line on which the source ends, as reached by `scan_from` after its last
/// token and the blanks that follow it.
pub open spec fn scan_end_line(src: Seq<char>, pos: int, line: int) -> int
    decreases src.len() - pos,
{
    let (p, l) = skip_blank(src, pos, line);
    if p < 0 || p >= src.len() {
        l
    } else {
        let (r, e) = lex_at(src, p);
        if r is Ok && pos < e <= src.len() {
            scan_end_line(src, e, l)
        } else {
            l
        }
    }
}

/// The token sequence of a whole source text, or the first failure.
pub open spec fn scan(src: Seq<char>) -> Result<Seq<TokenModel>, ErrorModel> {
    scan_from(src, 0, 1)
}

// ---------------------------------------------------------------------------
// Lemmas about the model
// ---------------------------------------------------------------------------
pub proof fn lemma_skip_blank(src: Seq<char>, pos: int, line: int)
    requires
        0 <= pos <= src.len(),
    ensures
        pos <= skip_blank(src, pos, line).0 <= src.len(),
        skip_blank(src, pos, line).1 == line + count_line_breaks(
            src.subrange(pos, skip_blank(src, pos, line).0),
        ),
        skip_blank(src, pos, line).0 < src.len() ==> !is_blank(
            src[skip_blank(src, pos, line).0],
        ),
        forall|i: int| pos <= i < skip_blank(src, pos, line).0 ==> is_blank(#[trigger] src[i]),
    decreases src.len() - pos,
{
    if pos < src.len() && is_blank(src[pos]) {
        let l2 = if is_line_break(src[pos]) {
            line + 1
        } else {
            line
        };
        lemma_skip_blank(src, pos + 1, l2);
        let e = skip_blank(src, pos + 1, l2).0;
        assert(src.subrange(pos, e).drop_first() =~= src.subrange(pos + 1, e));
    } else {
        assert(src.subrange(pos, pos).len() == 0);
    }
}

proof fn lemma_skip_blank_idem(src: Seq<char>, pos: int, line: int)
    ensures
        skip_blank(src, skip_blank(src, pos, line).0, skip_blank(src, pos, line).1) == skip_blank(
            src,
            pos,
            line,
        ),
    decreases src.len() - pos,
{
    if 0 <= pos < src.len() && is_blank(src[pos]) {
        let l2 = if is_line_break(src[pos]) {
            line + 1
        } else {
            line
        };
        lemma_skip_blank_idem(src, pos + 1, l2);
    }
}

proof fn lemma_digit_run(src: Seq<char>, pos: int)
    requires
        0 <= pos <= src.len(),
    ensures
        pos <= digit_run_end(src, pos) <= src.len(),
    decreases src.len() - pos,
{
    if pos < src.len() && is_digit(src[pos]) {
        lemma_digit_run(src, pos + 1);
    }
}

proof fn lemma_letter_run(src: Seq<char>, pos: int)
    requires
        0 <= pos <= src.len(),
    ensures
        pos <= letter_run_end(src, pos) <= src.len(),
    decreases src.len() - pos,
{
    if pos < src.len() && is_letter(src[pos]) {
        lemma_letter_run(src, pos + 1);
    }
}

proof fn lemma_string_stop(src: Seq<char>, pos: int)
    requires
        0 <= pos <= src.len(),
    ensures
        pos <= string_stop(src, pos) <= src.len(),
    decreases src.len() - pos,
{
    if pos < src.len() && src[pos] != '"' && src[pos] != '\n' {
        lemma_string_stop(src, pos + 1);
    }
}

/// A lexeme read at a position in the source ends inside the source, and a
/// token always consumes at least one character.
pub proof fn lemma_lex_at(src: Seq<char>, pos: int)
    requires
        0 <= pos < src.len(),
    ensures
        pos <= lex_at(src, pos).1 <= src.len(),
        lex_at(src, pos).0 is Ok ==> pos < lex_at(src, pos).1,
{
    lemma_digit_run(src, pos);
    lemma_letter_run(src, pos);
    lemma_digit_run(src, pos + 1);
    lemma_letter_run(src, pos + 1);
    lemma_string_stop(src, pos + 1);
}

// ---------------------------------------------------------------------------
// Tokens
// ---------------------------------------------------------------------------
/// The kind of a token. String and number tokens hold their lexeme verbatim:
/// a string keeps both enclosing quotes and is not unescaped; a number is the
/// run of ASCII digits that was read.
#[derive(Debug, Clone, PartialEq)]
pub enum TokenKind {
    LeftCurlyBracket,
    RightCurlyBracket,
    LeftSquareBracket,
    RightSquareBracket,
    Comma,
    Colon,
    String(String),
    Number(String),
    True,
    False,
    Null,
}

impl View for TokenKind {
    type V = KindModel;

    open spec fn view(&self) -> KindModel {
        match self {
            TokenKind::LeftCurlyBracket => KindModel::LeftCurlyBracket,
            TokenKind::RightCurlyBracket => KindModel::RightCurlyBracket,
            TokenKind::LeftSquareBracket => KindModel::LeftSquareBracket,
            TokenKind::RightSquareBracket => KindModel::RightSquareBracket,
            TokenKind::Comma => KindModel::Comma,
            TokenKind::Colon => KindModel::Colon,
            TokenKind::String(s) => KindModel::Str(s@),
            TokenKind::Number(s) => KindModel::Num(s@),
            TokenKind::True => KindModel::True,
            TokenKind::False => KindModel::False,
            TokenKind::Null => KindModel::Null,
        }
    }
}

/// A classified lexeme and the 1-based line on which it starts.
#[derive(Debug, Clone, PartialEq)]
pub struct Token {
    pub kind: TokenKind,
    pub line: usize,
}

impl View for Token {
    type V = TokenModel;

    open spec fn view(&self) -> TokenModel {
        TokenModel { kind: self.kind@, line: self.line as int }
    }
}

impl Token {
    pub fn new(kind: TokenKind, line: usize) -> (r: Self)
        ensures
            r.kind == kind,
            r.line == line,
    {
        Self { kind, line }
    }
}

/// The model of what `next` or `peek` returns.
pub open spec fn token_result_model(r: Result<Token, ParseError>) -> Result<TokenModel, ErrorModel> {
    match r {
        Ok(t) => Ok(t@),
        Err(e) => Err(e@),
    }
}

/// The kind or failure kind of a lexeme that was read.
pub open spec fn lexeme_model(r: Result<Token, ParseError>) -> Result<KindModel, ParseErrorKind> {
    match r {
        Ok(t) => Ok(t.kind@),
        Err(e) => Err(e.kind),
    }
}

/// The model of a scanned token sequence, or of the failure.
pub open spec fn tokens_result_model(r: Result<Vec<Token>, ParseError>) -> Result<
    Seq<TokenModel>,
    ErrorModel,
> {
    match r {
        Ok(v) => Ok(v@.map_values(|t: Token| t@)),
        Err(e) => Err(e@),
    }
}

// ---------------------------------------------------------------------------
// The token stream
// ---------------------------------------------------------------------------
/// A read cursor over a borrowed source text, handing out one token at a time.
///
/// The source is borrowed and never changed. Its characters are also decoded
/// once into `chars`, which is never changed either: reading the character
/// under the cursor is then constant time, where indexing a `str` by
/// character position walks it from the start.
pub struct TokenStream<'a> {
    source: &'a str,
    chars: Vec<char>,
    line: usize,
    pointer: usize,
}

impl<'a> View for TokenStream<'a> {
    type V = StreamModel;

    closed spec fn view(&self) -> StreamModel {
        StreamModel { src: self.chars@, pos: self.pointer as int, line: self.line as int }
    }
}

/// A stream state that a `TokenStream` can be in.
pub open spec fn valid_stream(m: StreamModel) -> bool {
    &&& m.src.len() < usize::MAX
    &&& 0 <= m.pos <= m.src.len()
    &&& 1 <= m.line <= m.pos + 1
}

impl<'a> TokenStream<'a> {
    /// The stream is consistent with its source text.
    pub closed spec fn wf(&self) -> bool {
        &&& self.chars@ == self.source@
        &&& valid_stream(self@)
    }

    /// A well-formed stream is in a valid state.
    pub proof fn lemma_wf(&self)
        requires
            self.wf(),
        ensures
            valid_stream(self@),
    {
    }

    pub fn new(source: &'a str) -> (r: Self)
        requires
            source@.len() < usize::MAX,
        ensures
            r.wf(),
            r@ == (StreamModel { src: source@, pos: 0, line: 1 }),
    {
        broadcast use {vstd::string::axiom_spec_iter, vstd::string::next_postcondition};

        let mut it = source.chars();
        let mut chars: Vec<char> = Vec::new();
        loop
            invariant
                chars@ + it.remaining() == source@,
                it.decrease() is Some,
            ensures
                chars@ == source@,
            decreases it.decrease()->0,
        {
            match it.next() {
                Some(c) => {
                    chars.push(c);
                },
                None => {
                    break ;
                },
            }
        }
        Self { source, chars, line: 1, pointer: 0 }
    }

    /// The current line.
    pub fn line(&self) -> (r: usize)
        requires
            self.wf(),
        ensures
            r == self@.line,
    {
        self.line
    }

    pub fn end_of_stream(&self) -> (r: bool)
        requires
            self.wf(),
        ensures
            r == (self@.pos >= self@.src.len()),
    {
        !(self.chars.len() > self.pointer)
    }

    pub fn char_at_pointer(&self) -> (r: char)
        requires
            self.wf(),
            self@.pos < self@.src.len(),
        ensures
            r == self@.src[self@.pos],
    {
        self.chars[self.pointer]
    }

    /// Skips spaces and line breaks, counting the line breaks.
    fn skip_blank(&mut self)
        requires
            old(self).wf(),
        ensures
            final(self).wf(),
            final(self).source == old(self).source,
            (final(self)@.pos, final(self)@.line) == skip_blank(
                old(self)@.src,
                old(self)@.pos,
                old(self)@.line,
            ),
            final(self)@.src == old(self)@.src,
    {
        while self.pointer < self.chars.len() && (self.chars[self.pointer] == ' '
            || self.chars[self.pointer] == '\n' || self.chars[self.pointer] == '\r'
            || self.chars[self.pointer] == '\t')
            invariant
                self.wf(),
                self.source == old(self).source,
                self@.src == old(self)@.src,
                skip_blank(self@.src, self@.pos, self@.line) == skip_blank(
                    old(self)@.src,
                    old(self)@.pos,
                    old(self)@.line,
                ),
            decreases self.chars.len() - self.pointer,
        {
            if self.chars[self.pointer] != ' ' {
                self.line = self.line + 1;
            }
            self.pointer = self.pointer + 1;
        }
    }

    /// Reads the string lexeme whose opening quote is under the cursor.
    fn tokenize_string(&mut self) -> (r: Result<Token, ParseError>)
        requires
            old(self).wf(),
            old(self)@.pos < old(self)@.src.len(),
            old(self)@.src[old(self)@.pos] == '"',
        ensures
            final(self).wf(),
            final(self).source == old(self).source,
            final(self)@.src == old(self)@.src,
            final(self)@.line == old(self)@.line,
            (r matches Ok(t) ==> t.line == old(self).line),
            (r matches Err(e) ==> e.line == old(self).line),
            (lexeme_model(r), final(self)@.pos) == lex_at(
                old(self)@.src,
                old(self)@.pos,
            ),
    {
        let start = self.pointer;
        self.pointer = self.pointer + 1;
        while self.pointer < self.chars.len() && self.chars[self.pointer] != '"'
            invariant
                self.wf(),
                self.source == old(self).source,
                self@.src == old(self)@.src,
                self@.line == old(self)@.line,
                start + 1 <= self.pointer <= self.chars.len(),
                start == old(self)@.pos,
                self@.src[start as int] == '"',
                string_stop(self@.src, self@.pos) == string_stop(self@.src, start + 1),
            decreases self.chars.len() - self.pointer,
        {
            if self.chars[self.pointer] == '\n' {
                assert(lex_at(self@.src, start as int) == (
                    Err::<KindModel, ParseErrorKind>(ParseErrorKind::UnterminatedString),
                    self@.pos,
                ));
                return Err(ParseError::new(self.line, ParseErrorKind::UnterminatedString));
            }
            self.pointer = self.pointer + 1;
        }
        if self.end_of_stream() {
            return Err(ParseError::new(self.line, ParseErrorKind::UnterminatedString));
        }
        let text = self.source.substring_char(start, self.pointer + 1).to_owned();
        let result = Token::new(TokenKind::String(text), self.line);
        self.pointer = self.pointer + 1;
        Ok(result)
    }

    /// Reads the run of ASCII digits under the cursor.
    fn tokenize_number(&mut self) -> (r: Result<Token, ParseError>)
        requires
            old(self).wf(),
            old(self)@.pos < old(self)@.src.len(),
            is_digit(old(self)@.src[old(self)@.pos]),
        ensures
            final(self).wf(),
            final(self).source == old(self).source,
            final(self)@.src == old(self)@.src,
            final(self)@.line == old(self)@.line,
            (r matches Ok(t) ==> t.line == old(self).line),
            (r matches Err(e) ==> e.line == old(self).line),
            (lexeme_model(r), final(self)@.pos) == lex_at(
                old(self)@.src,
                old(self)@.pos,
            ),
    {
        let start = self.pointer;
        while self.pointer < self.chars.len() && '0' <= self.chars[self.pointer]
            && self.chars[self.pointer] <= '9'
            invariant
                self.wf(),
                self.source == old(self).source,
                self@.src == old(self)@.src,
                self@.line == old(self)@.line,
                start <= self.pointer <= self.chars.len(),
                start == old(self)@.pos,
                digit_run_end(self@.src, self@.pos) == digit_run_end(self@.src, start as int),
            decreases self.chars.len() - self.pointer,
        {
            self.pointer = self.pointer + 1;
        }
        let digits = self.source.substring_char(start, self.pointer).to_owned();
        Ok(Token::new(TokenKind::Number(digits), self.line))
    }

    /// Reads the run of ASCII letters under the cursor and matches it against
    /// the three literals.
    fn tokenize_literal(&mut self) -> (r: Result<Token, ParseError>)
        requires
            old(self).wf(),
            old(self)@.pos < old(self)@.src.len(),
            is_letter(old(self)@.src[old(self)@.pos]),
        ensures
            final(self).wf(),
            final(self).source == old(self).source,
            final(self)@.src == old(self)@.src,
            final(self)@.line == old(self)@.line,
            (r matches Ok(t) ==> t.line == old(self).line),
            (r matches Err(e) ==> e.line == old(self).line),
            (lexeme_model(r), final(self)@.pos) == lex_at(
                old(self)@.src,
                old(self)@.pos,
            ),
    {
        let start = self.pointer;
        while self.pointer < self.chars.len() && (('a' <= self.chars[self.pointer]
            && self.chars[self.pointer] <= 'z') || ('A' <= self.chars[self.pointer]
            && self.chars[self.pointer] <= 'Z'))
            invariant
                self.wf(),
                self.source == old(self).source,
                self@.src == old(self)@.src,
                self@.line == old(self)@.line,
                start <= self.pointer <= self.chars.len(),
                start == old(self)@.pos,
                letter_run_end(self@.src, self@.pos) == letter_run_end(self@.src, start as int),
            decreases self.chars.len() - self.pointer,
        {
            self.pointer = self.pointer + 1;
        }
        let end = self.pointer;
        let ghost word = self@.src.subrange(start as int, end as int);
        let c = &self.chars;
        if end - start == 4 && c[start] == 't' && c[start + 1] == 'r' && c[start + 2] == 'u'
            && c[start + 3] == 'e' {
            assert(word =~= seq!['t', 'r', 'u', 'e']);
            Ok(Token::new(TokenKind::True, self.line))
        } else if end - start == 5 && c[start] == 'f' && c[start + 1] == 'a' && c[start + 2]
            == 'l' && c[start + 3] == 's' && c[start + 4] == 'e' {
            assert(word =~= seq!['f', 'a', 'l', 's', 'e']);
            Ok(Token::new(TokenKind::False, self.line))
        } else if end - start == 4 && c[start] == 'n' && c[start + 1] == 'u' && c[start + 2]
            == 'l' && c[start + 3] == 'l' {
            assert(word =~= seq!['n', 'u', 'l', 'l']);
            Ok(Token::new(TokenKind::Null, self.line))
        } else {
            assert(literal_kind(word) is None) by {
                assert(word.len() == end - start);
                assert(forall|k: int| 0 <= k < word.len() ==> word[k] == c@[start + k]);
                if word == seq!['t', 'r', 'u', 'e'] {
                    assert(word[0] == 't' && word[1] == 'r' && word[2] == 'u' && word[3] == 'e');
                }
                if word == seq!['f', 'a', 'l', 's', 'e'] {
                    assert(word[0] == 'f' && word[1] == 'a' && word[2] == 'l' && word[3] == 's'
                        && word[4] == 'e');
                }
                if word == seq!['n', 'u', 'l', 'l'] {
                    assert(word[0] == 'n' && word[1] == 'u' && word[2] == 'l' && word[3] == 'l');
                }
            }
            Err(ParseError::new(self.line, ParseErrorKind::InvalidValue))
        }
    }

    /// Emits a one-character token of the given kind on the current line and
    /// moves the cursor past that character.
    fn single_token(&mut self, kind: TokenKind) -> (r: Result<Token, ParseError>)
        requires
            old(self).wf(),
            old(self)@.pos < old(self)@.src.len(),
        ensures
            final(self).wf(),
            r == Ok::<Token, ParseError>(Token { kind, line: old(self).line }),
            final(self)@.src == old(self)@.src,
            final(self)@.pos == old(self)@.pos + 1,
            final(self)@.line == old(self)@.line,
    {
        let result = Token::new(kind, self.line);
        self.pointer = self.pointer + 1;
        Ok(result)
    }

    /// Consumes and returns the next token. Blanks before it are skipped, and
    /// each line break among them advances the line. Fails with `EndOfStream`
    /// when only blanks are left, or with the failure of the lexeme.
    pub fn next(&mut self) -> (r: Result<Token, ParseError>)
        requires
            old(self).wf(),
        ensures
            final(self).wf(),
            (token_result_model(r), final(self)@) == next_model(old(self)@),
    {
        self.skip_blank();
        proof {
            lemma_skip_blank(old(self)@.src, old(self)@.pos, old(self)@.line);
        }
        if self.end_of_stream() {
            return Err(ParseError::new(self.line, ParseErrorKind::EndOfStream));
        }
        let c = self.char_at_pointer();
        if c == '{' {
            self.single_token(TokenKind::LeftCurlyBracket)
        } else if c == '}' {
            self.single_token(TokenKind::RightCurlyBracket)
        } else if c == '[' {
            self.single_token(TokenKind::LeftSquareBracket)
        } else if c == ']' {
            self.single_token(TokenKind::RightSquareBracket)
        } else if c == ',' {
            self.single_token(TokenKind::Comma)
        } else if c == ':' {
            self.single_token(TokenKind::Colon)
        } else if c == '"' {
            self.tokenize_string()
        } else if '0' <= c && c <= '9' {
            self.tokenize_number()
        } else if ('a' <= c && c <= 'z') || ('A' <= c && c <= 'Z') {
            self.tokenize_literal()
        } else {
            Err(ParseError::new(self.line, ParseErrorKind::InvalidToken))
        }
    }

    /// Returns what `next` would return, and leaves the stream as it was.
    pub fn peek(&mut self) -> (r: Result<Token, ParseError>)
        requires
            old(self).wf(),
        ensures
            final(self).wf(),
            (token_result_model(r), final(self)@) == peek_model(old(self)@),
    {
        let previous_pointer = self.pointer;
        let previous_line = self.line;
        let result = self.next();
        self.pointer = previous_pointer;
        self.line = previous_line;
        result
    }

    /// Scans the rest of the source to its end: every token in order, or the
    /// first failure.
    pub fn scan_all(&mut self) -> (r: Result<Vec<Token>, ParseError>)
        requires
            old(self).wf(),
        ensures
            final(self).wf(),
            tokens_result_model(r) == scan_from(old(self)@.src, old(self)@.pos, old(self)@.line),
            r is Ok ==> final(self)@.line == scan_end_line(
                old(self)@.src,
                old(self)@.pos,
                old(self)@.line,
            ),
    {
        let mut tokens: Vec<Token> = Vec::new();
        loop
            invariant
                self.wf(),
                self@.src == old(self)@.src,
                scan_end_line(old(self)@.src, old(self)@.pos, old(self)@.line) == scan_end_line(
                    self@.src,
                    self@.pos,
                    self@.line,
                ),
                scan_from(old(self)@.src, old(self)@.pos, old(self)@.line) == prefixed(
                    tokens@.map_values(|t: Token| t@),
                    scan_from(self@.src, self@.pos, self@.line),
                ),
            decreases self@.src.len() - self@.pos,
        {
            let ghost before = self@;
            self.skip_blank();
            proof {
                lemma_scan_from_skip(before.src, before.pos, before.line);
            }
            if self.end_of_stream() {
                assert(tokens@.map_values(|t: Token| t@) + Seq::<TokenModel>::empty()
                    =~= tokens@.map_values(|t: Token| t@));
                return Ok(tokens);
            }
            let ghost mid = self@;
            proof {
                lemma_skip_blank_idem(before.src, before.pos, before.line);
                lemma_lex_at(mid.src, mid.pos);
            }
            match self.next() {
                Ok(t) => {
                    let ghost old_tokens = tokens@.map_values(|t: Token| t@);
                    tokens.push(t);
                    assert(tokens@.map_values(|t: Token| t@) =~= old_tokens.push(t@));
                    proof {
                        match scan_from(self@.src, self@.pos, self@.line) {
                            Ok(rest) => {
                                assert(old_tokens + (seq![t@] + rest) =~= old_tokens.push(t@)
                                    + rest);
                            },
                            Err(_) => {},
                        }
                    }
                },
                Err(e) => {
                    return Err(e);
                },
            }
        }
    }
}

/// A token sequence, or a failure, with `pre` put in front of the tokens.
pub open spec fn prefixed(pre: Seq<TokenModel>, r: Result<Seq<TokenModel>, ErrorModel>) -> Result<
    Seq<TokenModel>,
    ErrorModel,
> {
    match r {
        Ok(s) => Ok(pre + s),
        Err(e) => Err(e),
    }
}

/// Blanks before the cursor do not change what the rest of the source scans to.
proof fn lemma_scan_from_skip(src: Seq<char>, pos: int, line: int)
    requires
        0 <= pos <= src.len(),
    ensures
        scan_from(src, pos, line) == scan_from(
            src,
            skip_blank(src, pos, line).0,
            skip_blank(src, pos, line).1,
        ),
        scan_end_line(src, pos, line) == scan_end_line(
            src,
            skip_blank(src, pos, line).0,
            skip_blank(src, pos, line).1,
        ),
{
    lemma_skip_blank(src, pos, line);
    lemma_skip_blank_idem(src, pos, line);
    let (p, l) = skip_blank(src, pos, line);
    if p < src.len() {
        lemma_lex_at(src, p);
    }
}

// ---------------------------------------------------------------------------
// Laws of the scanner
// ---------------------------------------------------------------------------
/// A source made only of structural punctuation scans to one token per
/// character, in order, each of its own kind and all on line 1.
pub proof fn lemma_structural_source(src: Seq<char>)
    requires
        forall|i: int| 0 <= i < src.len() ==> (#[trigger] structural_kind(src[i])) is Some,
    ensures
        scan(src) == Ok::<Seq<TokenModel>, ErrorModel>(
            Seq::new(
                src.len(),
                |i: int| TokenModel { kind: structural_kind(src[i])->0, line: 1 },
            ),
        ),
{
    lemma_structural_suffix(src, 0);
    assert(Seq::new(
        (src.len() - 0) as nat,
        |i: int| TokenModel { kind: structural_kind(src[0 + i])->0, line: 1 },
    ) =~= Seq::new(src.len(), |i: int| TokenModel { kind: structural_kind(src[i])->0, line: 1 }));
}

proof fn lemma_structural_suffix(src: Seq<char>, p: int)
    requires
        0 <= p <= src.len(),
        forall|i: int| 0 <= i < src.len() ==> (#[trigger] structural_kind(src[i])) is Some,
    ensures
        scan_from(src, p, 1) == Ok::<Seq<TokenModel>, ErrorModel>(
            Seq::new(
                (src.len() - p) as nat,
                |i: int| TokenModel { kind: structural_kind(src[p + i])->0, line: 1 },
            ),
        ),
    decreases src.len() - p,
{
    let expected = Seq::new(
        (src.len() - p) as nat,
        |i: int| TokenModel { kind: structural_kind(src[p + i])->0, line: 1 },
    );
    if p < src.len() {
        assert(structural_kind(src[p]) is Some);
        lemma_structural_suffix(src, p + 1);
        let rest = Seq::new(
            (src.len() - (p + 1)) as nat,
            |i: int| TokenModel { kind: structural_kind(src[p + 1 + i])->0, line: 1 },
        );
        assert(seq![TokenModel { kind: structural_kind(src[p])->0, line: 1 }] + rest =~= expected);
    } else {
        assert(expected =~= Seq::empty());
    }
}

/// The token that `next` returns carries the current line plus the number of
/// line breaks among the blanks skipped before it: only spaces and line
/// breaks lie between the cursor and the token's first character.
pub proof fn lemma_token_line(m: StreamModel)
    requires
        valid_stream(m),
    ensures
        next_model(m).0 is Ok ==> exists|start: int|
            #![trigger m.src.subrange(m.pos, start)]
            m.pos <= start < m.src.len() && (forall|i: int|
                m.pos <= i < start ==> is_blank(#[trigger] m.src[i]))
                && next_model(m).0->Ok_0.line == m.line + count_line_breaks(
                m.src.subrange(m.pos, start),
            ),
{
    lemma_skip_blank(m.src, m.pos, m.line);
    let start = skip_blank(m.src, m.pos, m.line).0;
    assert(m.src.subrange(m.pos, start).len() == start - m.pos);
}

/// Peeking any number of times leaves the stream as it was, so every peek
/// returns the token that the following `next` returns; and that `next`
/// consumes exactly that one token of the rest of the source.
pub proof fn lemma_peek_then_next(m: StreamModel, n: nat)
    requires
        valid_stream(m),
    ensures
        after_peeks(m, n) == m,
        forall|k: nat| k < n ==> (#[trigger] peek_model(after_peeks(m, k))).0 == next_model(m).0,
        next_model(after_peeks(m, n)) == next_model(m),
        next_model(m).0 matches Ok(t) ==> scan_from(m.src, m.pos, m.line) == prefixed(
            seq![t],
            scan_from(m.src, next_model(m).1.pos, next_model(m).1.line),
        ),
    decreases n,
{
    if n > 0 {
        lemma_peek_then_next(m, (n - 1) as nat);
        assert forall|k: nat| k < n implies (#[trigger] peek_model(after_peeks(m, k))).0
            == next_model(m).0 by {
            lemma_after_peeks(m, k);
        }
    }
    lemma_scan_from_skip(m.src, m.pos, m.line);
    lemma_skip_blank(m.src, m.pos, m.line);
    lemma_skip_blank_idem(m.src, m.pos, m.line);
    let (p, l) = skip_blank(m.src, m.pos, m.line);
    if p < m.src.len() {
        lemma_lex_at(m.src, p);
    }
    if let Ok(t) = next_model(m).0 {
        match scan_from(m.src, next_model(m).1.pos, next_model(m).1.line) {
            Ok(rest) => {},
            Err(_) => {},
        }
    }
}

proof fn lemma_after_peeks(m: StreamModel, k: nat)
    ensures
        after_peeks(m, k) == m,
    decreases k,
{
    if k > 0 {
        lemma_after_peeks(m, (k - 1) as nat);
    }
}

/// The stream state after `n` calls of `peek`.
pub open spec fn after_peeks(m: StreamModel, n: nat) -> StreamModel
    decreases n,
{
    if n == 0 {
        m
    } else {
        peek_model(after_peeks(m, (n - 1) as nat)).1
    }
}

/// Where each token of `scan_from(src, pos, line)` starts in the source.
pub open spec fn scan_starts_from(src: Seq<char>, pos: int, line: int) -> Seq<int>
    decreases src.len() - pos,
{
    let (p, l) = skip_blank(src, pos, line);
    if p < 0 || p >= src.len() {
        Seq::empty()
    } else {
        let (r, e) = lex_at(src, p);
        if r is Ok && pos < e <= src.len() {
            seq![p] + scan_starts_from(src, e, l)
        } else {
            Seq::empty()
        }
    }
}

/// Line breaks inside a token's lexeme: only a string can hold any (a tab
/// or a carriage return).
pub open spec fn lexeme_breaks(k: KindModel) -> nat {
    match k {
        KindModel::Str(s) => count_line_breaks(s),
        _ => 0,
    }
}

/// Line breaks inside the lexemes of a token sequence.
pub open spec fn lexemes_breaks(toks: Seq<TokenModel>) -> nat
    decreases toks.len(),
{
    if toks.len() == 0 {
        0
    } else {
        lexeme_breaks(toks[0].kind) + lexemes_breaks(toks.drop_first())
    }
}

/// Every token's line is 1 plus the number of line breaks before its first
/// character that stand outside string lexemes: those inside the strings
/// before it are not counted.
pub proof fn lemma_token_lines(src: Seq<char>)
    requires
        scan(src) is Ok,
    ensures
        scan_starts_from(src, 0, 1).len() == scan(src)->Ok_0.len(),
        forall|k: int|
            0 <= k < scan(src)->Ok_0.len() ==> (#[trigger] scan(src)->Ok_0[k]).line == 1
                + count_line_breaks(src.subrange(0, scan_starts_from(src, 0, 1)[k]))
                - lexemes_breaks(scan(src)->Ok_0.take(k)),
{
    lemma_token_lines_from(src, 0, 1);
}

proof fn lemma_token_lines_from(src: Seq<char>, pos: int, line: int)
    requires
        0 <= pos <= src.len(),
        scan_from(src, pos, line) is Ok,
    ensures
        scan_starts_from(src, pos, line).len() == scan_from(src, pos, line)->Ok_0.len(),
        forall|k: int|
            0 <= k < scan_from(src, pos, line)->Ok_0.len() ==> pos <= scan_starts_from(
                src,
                pos,
                line,
            )[k] <= src.len() && (#[trigger] scan_from(src, pos, line)->Ok_0[k]).line == line
                + count_line_breaks(src.subrange(pos, scan_starts_from(src, pos, line)[k]))
                - lexemes_breaks(scan_from(src, pos, line)->Ok_0.take(k)),
    decreases src.len() - pos,
{
    let toks = scan_from(src, pos, line)->Ok_0;
    let starts = scan_starts_from(src, pos, line);
    lemma_skip_blank(src, pos, line);
    let (p, l) = skip_blank(src, pos, line);
    if p < src.len() {
        lemma_lex_at(src, p);
        let (r, e) = lex_at(src, p);
        let rest = scan_from(src, e, l)->Ok_0;
        let rest_starts = scan_starts_from(src, e, l);
        lemma_token_lines_from(src, e, l);
        lemma_lexeme_breaks(src, p);
        assert(toks == seq![TokenModel { kind: r->Ok_0, line: l }] + rest);
        assert(starts == seq![p] + rest_starts);
        assert forall|k: int| 0 <= k < toks.len() implies pos <= starts[k] <= src.len() && (
        #[trigger] toks[k]).line == line + count_line_breaks(src.subrange(pos, starts[k]))
            - lexemes_breaks(toks.take(k)) by {
            if k == 0 {
                assert(toks.take(0).len() == 0);
            } else {
                let s = starts[k];
                assert(s == rest_starts[k - 1]);
                assert(toks[k] == rest[k - 1]);
                assert(toks.take(k).drop_first() =~= rest.take(k - 1));
                assert(toks.take(k)[0] == toks[0]);
                lemma_count_split(src, pos, p, s);
                lemma_count_split(src, p, e, s);
            }
        }
    }
}

proof fn lemma_count_concat(a: Seq<char>, b: Seq<char>)
    ensures
        count_line_breaks(a + b) == count_line_breaks(a) + count_line_breaks(b),
    decreases a.len(),
{
    if a.len() > 0 {
        lemma_count_concat(a.drop_first(), b);
        assert((a + b).drop_first() =~= a.drop_first() + b);
    } else {
        assert(a + b =~= b);
    }
}

proof fn lemma_count_split(src: Seq<char>, a: int, b: int, c: int)
    requires
        0 <= a <= b <= c <= src.len(),
    ensures
        count_line_breaks(src.subrange(a, c)) == count_line_breaks(src.subrange(a, b))
            + count_line_breaks(src.subrange(b, c)),
{
    lemma_count_concat(src.subrange(a, b), src.subrange(b, c));
    assert(src.subrange(a, b) + src.subrange(b, c) =~= src.subrange(a, c));
}

proof fn lemma_count_none(s: Seq<char>)
    requires
        forall|i: int| 0 <= i < s.len() ==> !is_line_break(#[trigger] s[i]),
    ensures
        count_line_breaks(s) == 0,
    decreases s.len(),
{
    if s.len() > 0 {
        assert(!is_line_break(s[0]));
        lemma_count_none(s.drop_first());
    }
}

proof fn lemma_digit_run_digits(src: Seq<char>, pos: int)
    requires
        0 <= pos <= src.len(),
    ensures
        forall|i: int| pos <= i < digit_run_end(src, pos) ==> is_digit(#[trigger] src[i]),
    decreases src.len() - pos,
{
    if pos < src.len() && is_digit(src[pos]) {
        lemma_digit_run_digits(src, pos + 1);
    }
}

proof fn lemma_letter_run_letters(src: Seq<char>, pos: int)
    requires
        0 <= pos <= src.len(),
    ensures
        forall|i: int| pos <= i < letter_run_end(src, pos) ==> is_letter(#[trigger] src[i]),
    decreases src.len() - pos,
{
    if pos < src.len() && is_letter(src[pos]) {
        lemma_letter_run_letters(src, pos + 1);
    }
}

/// The line breaks inside a lexeme that was read are those of its token.
proof fn lemma_lexeme_breaks(src: Seq<char>, p: int)
    requires
        0 <= p < src.len(),
        lex_at(src, p).0 is Ok,
    ensures
        count_line_breaks(src.subrange(p, lex_at(src, p).1)) == lexeme_breaks(
            lex_at(src, p).0->Ok_0,
        ),
{
    lemma_lex_at(src, p);
    let e = lex_at(src, p).1;
    let w = src.subrange(p, e);
    let c = src[p];
    if structural_kind(c) is Some {
        lemma_count_none(w);
    } else if c == '"' {
    } else if is_digit(c) {
        lemma_digit_run_digits(src, p);
        lemma_count_none(w);
    } else {
        lemma_letter_run_letters(src, p);
        lemma_count_none(w);
    }
}

/// The stream state after `n` calls of `next`, each from the state that the
/// one before left.
pub open spec fn after_nexts(m: StreamModel, n: nat) -> StreamModel
    decreases n,
{
    if n == 0 {
        m
    } else {
        next_model(after_nexts(m, (n - 1) as nat)).1
    }
}

/// On a fresh stream over a source made only of structural punctuation, the
/// `k`-th call of `next` returns the token of the `k`-th character on line 1,
/// and once every character is consumed `next` fails with `EndOfStream` on
/// line 1.
pub proof fn lemma_structural_nexts(src: Seq<char>, k: nat)
    requires
        k <= src.len(),
        forall|i: int| 0 <= i < src.len() ==> (#[trigger] structural_kind(src[i])) is Some,
    ensures
        after_nexts(StreamModel { src, pos: 0, line: 1 }, k) == (StreamModel {
            src,
            pos: k as int,
            line: 1,
        }),
        k < src.len() ==> next_model(after_nexts(StreamModel { src, pos: 0, line: 1 }, k)).0
            == Ok::<TokenModel, ErrorModel>(
            TokenModel { kind: structural_kind(src[k as int])->0, line: 1 },
        ),
        k == src.len() ==> next_model(after_nexts(StreamModel { src, pos: 0, line: 1 }, k)).0
            == Err::<TokenModel, ErrorModel>(
            ErrorModel { kind: ParseErrorKind::EndOfStream, line: 1 },
        ),
    decreases k,
{
    if k > 0 {
        lemma_structural_nexts(src, (k - 1) as nat);
        assert(structural_kind(src[k - 1]) is Some);
    }
    if k < src.len() {
        assert(structural_kind(src[k as int]) is Some);
    }
}

/// When the rest of the source scans without failure, successive calls of
/// `next` hand out exactly its tokens, one per call, in order.
pub proof fn lemma_nexts_follow_scan(m: StreamModel, k: nat)
    requires
        valid_stream(m),
        scan_from(m.src, m.pos, m.line) is Ok,
        k <= scan_from(m.src, m.pos, m.line)->Ok_0.len(),
    ensures
        valid_stream(after_nexts(m, k)),
        after_nexts(m, k).src == m.src,
        scan_from(m.src, after_nexts(m, k).pos, after_nexts(m, k).line) == Ok::<
            Seq<TokenModel>,
            ErrorModel,
        >(scan_from(m.src, m.pos, m.line)->Ok_0.skip(k as int)),
        k < scan_from(m.src, m.pos, m.line)->Ok_0.len() ==> next_model(after_nexts(m, k)).0
            == Ok::<TokenModel, ErrorModel>(scan_from(m.src, m.pos, m.line)->Ok_0[k as int]),
    decreases k,
{
    let toks = scan_from(m.src, m.pos, m.line)->Ok_0;
    if k > 0 {
        lemma_nexts_follow_scan(m, (k - 1) as nat);
        let prev = after_nexts(m, (k - 1) as nat);
        lemma_next_consumes_one(prev);
        assert(toks.skip(k - 1).drop_first() =~= toks.skip(k as int));
    } else {
        assert(toks.skip(0) =~= toks);
    }
    let cur = after_nexts(m, k);
    if k < toks.len() {
        lemma_next_consumes_one(cur);
        lemma_scan_from_skip(cur.src, cur.pos, cur.line);
        lemma_skip_blank(cur.src, cur.pos, cur.line);
    }
}

/// From a valid state whose rest scans without failure and holds a token,
/// `next` returns the first of those tokens and leaves a valid state from
/// which the others remain.
proof fn lemma_next_consumes_one(m: StreamModel)
    requires
        valid_stream(m),
        scan_from(m.src, m.pos, m.line) is Ok,
        scan_from(m.src, m.pos, m.line)->Ok_0.len() > 0,
    ensures
        next_model(m).0 == Ok::<TokenModel, ErrorModel>(scan_from(m.src, m.pos, m.line)->Ok_0[0]),
        valid_stream(next_model(m).1),
        next_model(m).1.src == m.src,
        scan_from(m.src, next_model(m).1.pos, next_model(m).1.line) == Ok::<
            Seq<TokenModel>,
            ErrorModel,
        >(scan_from(m.src, m.pos, m.line)->Ok_0.drop_first()),
{
    lemma_scan_from_skip(m.src, m.pos, m.line);
    lemma_skip_blank(m.src, m.pos, m.line);
    lemma_skip_blank_idem(m.src, m.pos, m.line);
    let (p, l) = skip_blank(m.src, m.pos, m.line);
    assert(p < m.src.len());
    lemma_lex_at(m.src, p);
    let (r, e) = lex_at(m.src, p);
    let rest = scan_from(m.src, e, l)->Ok_0;
    assert(scan_from(m.src, m.pos, m.line)->Ok_0.drop_first() =~= rest);
    assert(l <= p + 1) by {
        assert(count_line_breaks(m.src.subrange(m.pos, p)) <= p - m.pos) by {
            lemma_count_bound(m.src.subrange(m.pos, p));
        }
    }
}

proof fn lemma_count_bound(s: Seq<char>)
    ensures
        count_line_breaks(s) <= s.len(),
    decreases s.len(),
{
    if s.len() > 0 {
        lemma_count_bound(s.drop_first());
    }
}

/// The tokens returned by the first `n` calls of `next` from `m`.
pub open spec fn nexts_tokens(m: StreamModel, n: nat) -> Seq<TokenModel>
    decreases n,
{
    if n == 0 {
        Seq::empty()
    } else {
        nexts_tokens(m, (n - 1) as nat).push(
            next_model(after_nexts(m, (n - 1) as nat)).0->Ok_0,
        )
    }
}

/// Each of the first `n` calls of `next` from `m` returns a token.
pub open spec fn nexts_succeed(m: StreamModel, n: nat) -> bool {
    forall|j: nat| j < n ==> (#[trigger] next_model(after_nexts(m, j))).0 is Ok
}

proof fn lemma_lexemes_breaks_push(toks: Seq<TokenModel>, t: TokenModel)
    ensures
        lexemes_breaks(toks.push(t)) == lexemes_breaks(toks) + lexeme_breaks(t.kind),
    decreases toks.len(),
{
    if toks.len() > 0 {
        lemma_lexemes_breaks_push(toks.drop_first(), t);
        assert(toks.push(t).drop_first() =~= toks.drop_first().push(t));
        assert(toks.push(t)[0] == toks[0]);
    } else {
        assert(toks.push(t).drop_first() =~= Seq::<TokenModel>::empty());
        assert(toks.push(t)[0] == t);
        assert(lexemes_breaks(Seq::<TokenModel>::empty()) == 0);
    }
}

/// After `n` successful calls of `next` on a fresh stream, the stream's line
/// is 1 plus the line breaks before the cursor, less those inside the string
/// lexemes returned so far.
proof fn lemma_nexts_line(src: Seq<char>, n: nat)
    requires
        src.len() < usize::MAX,
        nexts_succeed(StreamModel { src, pos: 0, line: 1 }, n),
    ensures
        valid_stream(after_nexts(StreamModel { src, pos: 0, line: 1 }, n)),
        after_nexts(StreamModel { src, pos: 0, line: 1 }, n).src == src,
        after_nexts(StreamModel { src, pos: 0, line: 1 }, n).line == 1 + count_line_breaks(
            src.subrange(0, after_nexts(StreamModel { src, pos: 0, line: 1 }, n).pos),
        ) - lexemes_breaks(nexts_tokens(StreamModel { src, pos: 0, line: 1 }, n)),
    decreases n,
{
    let m0 = StreamModel { src, pos: 0, line: 1 };
    if n == 0 {
        assert(src.subrange(0, 0).len() == 0);
    } else {
        let k = (n - 1) as nat;
        assert(nexts_succeed(m0, k)) by {
            assert forall|j: nat| j < k implies (#[trigger] next_model(after_nexts(m0, j))).0 is Ok by {
                assert(next_model(after_nexts(m0, j)).0 is Ok);
            }
        }
        lemma_nexts_line(src, k);
        let m = after_nexts(m0, k);
        assert(next_model(m).0 is Ok);
        lemma_skip_blank(src, m.pos, m.line);
        let (p, l) = skip_blank(src, m.pos, m.line);
        lemma_lex_at(src, p);
        lemma_lexeme_breaks(src, p);
        let e = lex_at(src, p).1;
        lemma_count_split(src, 0, m.pos, p);
        lemma_count_split(src, 0, p, e);
        lemma_lexemes_breaks_push(nexts_tokens(m0, k), next_model(m).0->Ok_0);
        lemma_count_bound(src.subrange(0, e));
        lemma_count_bound(src.subrange(m.pos, p));
    }
}

/// On a fresh stream, when the first `k + 1` calls of `next` return tokens,
/// the last of them stands on line 1 plus the number of line breaks before
/// its first character, provided no string lexeme returned before it holds a
/// tab or a carriage return: only spaces and line breaks lie between the
/// cursor and that first character.
pub proof fn lemma_next_lines(src: Seq<char>, k: nat)
    requires
        src.len() < usize::MAX,
        nexts_succeed(StreamModel { src, pos: 0, line: 1 }, k + 1),
        lexemes_breaks(nexts_tokens(StreamModel { src, pos: 0, line: 1 }, k)) == 0,
    ensures
        ({
            let m = after_nexts(StreamModel { src, pos: 0, line: 1 }, k);
            let start = skip_blank(src, m.pos, m.line).0;
            &&& m.pos <= start < src.len()
            &&& forall|i: int| m.pos <= i < start ==> is_blank(#[trigger] src[i])
            &&& next_model(m).0->Ok_0.line == 1 + count_line_breaks(src.subrange(0, start))
        }),
{
    let m0 = StreamModel { src, pos: 0, line: 1 };
    assert(nexts_succeed(m0, k)) by {
        assert forall|j: nat| j < k implies (#[trigger] next_model(after_nexts(m0, j))).0 is Ok by {
            assert(next_model(after_nexts(m0, j)).0 is Ok);
        }
    }
    lemma_nexts_line(src, k);
    let m = after_nexts(m0, k);
    assert(next_model(after_nexts(m0, k)).0 is Ok);
    lemma_skip_blank(src, m.pos, m.line);
    let (p, l) = skip_blank(src, m.pos, m.line);
    lemma_count_split(src, 0, m.pos, p);
}

} // verus!
