use vstd::prelude::*;

use crate::ast::{
    lemma_array_model, lemma_object_model, members_model, values_model, Container, JsonValue,
    Member, MemberModel, Primitive, ValueModel,
};
use crate::error::{ErrorModel, ParseError, ParseErrorKind};
use crate::token::{scan_end_line, scan_from, KindModel, StreamModel, Token, TokenKind, TokenModel, TokenStream};

verus! {

// ---------------------------------------------------------------------------
// Mathematical model of the grammar
// ---------------------------------------------------------------------------
/// The models of a sequence of tokens.
pub open spec fn token_models(ts: Seq<Token>) -> Seq<TokenModel> {
    ts.map_values(|t: Token| t@)
}

/// The line reported for a failure at token index `i`: that token's line, or
/// past the last token `end`, the line on which the input ended.
pub open spec fn line_at(toks: Seq<TokenModel>, end: int, i: int) -> int {
    if 0 <= i < toks.len() {
        toks[i].line
    } else {
        end
    }
}

pub open spec fn failure<A>(toks: Seq<TokenModel>, end: int, i: int, kind: ParseErrorKind) -> Result<
    A,
    ErrorModel,
> {
    Err(ErrorModel { kind, line: line_at(toks, end, i) })
}

/// A primitive from the token at `i`, and the index after it.
pub open spec fn parse_primitive_at(toks: Seq<TokenModel>, end: int, i: int) -> Result<
    (ValueModel, int),
    ErrorModel,
> {
    if i < 0 || i >= toks.len() {
        failure(toks, end, i, ParseErrorKind::EndOfStream)
    } else {
        match toks[i].kind {
            KindModel::Str(s) => Ok((ValueModel::Str(s), i + 1)),
            KindModel::Num(s) => Ok((ValueModel::Number(s), i + 1)),
            KindModel::True => Ok((ValueModel::Boolean(true), i + 1)),
            KindModel::False => Ok((ValueModel::Boolean(false), i + 1)),
            KindModel::Null => Ok((ValueModel::Null, i + 1)),
            _ => failure(toks, end, i, ParseErrorKind::NotAPrimitive),
        }
    }
}

/// The value that starts at token `i`, and the index after it. Running out
/// of tokens here is an unterminated container: at the top level a value is
/// only read where a token is left.
pub open spec fn parse_value_at(toks: Seq<TokenModel>, end: int, i: int) -> Result<
    (ValueModel, int),
    ErrorModel,
>
    decreases toks.len() - i, 2int,
{
    if i < 0 || i >= toks.len() {
        failure(toks, end, i, ParseErrorKind::UnterminatedContainer)
    } else {
        match toks[i].kind {
            KindModel::LeftCurlyBracket => parse_object_at(toks, end, i),
            KindModel::LeftSquareBracket => parse_array_at(toks, end, i),
            _ => parse_primitive_at(toks, end, i),
        }
    }
}

/// The object whose `{` is token `i`.
pub open spec fn parse_object_at(toks: Seq<TokenModel>, end: int, i: int) -> Result<
    (ValueModel, int),
    ErrorModel,
>
    decreases toks.len() - i, 1int,
{
    if i < 0 || i + 1 >= toks.len() {
        failure(toks, end, i + 1, ParseErrorKind::UnterminatedContainer)
    } else if toks[i + 1].kind is RightCurlyBracket {
        Ok((ValueModel::Object(Seq::empty()), i + 2))
    } else {
        parse_members_at(toks, end, i + 1, Seq::empty())
    }
}

/// The members of an object from token `j` on, after the members `acc`.
/// (A value always ends after the token it starts at, so `k < j` never holds;
/// the test states that for the termination check. The same holds below.)
pub open spec fn parse_members_at(toks: Seq<TokenModel>, end: int, j: int, acc: Seq<MemberModel>) -> Result<
    (ValueModel, int),
    ErrorModel,
>
    decreases toks.len() - j, 0int,
{
    if j < 0 || j >= toks.len() {
        failure(toks, end, j, ParseErrorKind::UnterminatedContainer)
    } else {
        match toks[j].kind {
            KindModel::Str(name) => if j + 1 >= toks.len() {
                failure(toks, end, j + 1, ParseErrorKind::UnterminatedContainer)
            } else if !(toks[j + 1].kind is Colon) {
                failure(toks, end, j + 1, ParseErrorKind::UnexpectedToken)
            } else {
                match parse_value_at(toks, end, j + 2) {
                    Err(e) => Err(e),
                    Ok((v, k)) => {
                        let acc2 = acc.push(MemberModel { name, value: v });
                        if k < j || k >= toks.len() {
                            failure(toks, end, k, ParseErrorKind::UnterminatedContainer)
                        } else if toks[k].kind is Comma {
                            parse_members_at(toks, end, k + 1, acc2)
                        } else if toks[k].kind is RightCurlyBracket {
                            Ok((ValueModel::Object(acc2), k + 1))
                        } else {
                            failure(toks, end, k, ParseErrorKind::UnexpectedToken)
                        }
                    },
                }
            },
            _ => failure(toks, end, j, ParseErrorKind::UnexpectedToken),
        }
    }
}

/// The array whose `[` is token `i`.
pub open spec fn parse_array_at(toks: Seq<TokenModel>, end: int, i: int) -> Result<
    (ValueModel, int),
    ErrorModel,
>
    decreases toks.len() - i, 1int,
{
    if i < 0 || i + 1 >= toks.len() {
        failure(toks, end, i + 1, ParseErrorKind::UnterminatedContainer)
    } else if toks[i + 1].kind is RightSquareBracket {
        Ok((ValueModel::Array(Seq::empty()), i + 2))
    } else {
        parse_elements_at(toks, end, i + 1, Seq::empty())
    }
}

/// The elements of an array from token `j` on, after the elements `acc`.
pub open spec fn parse_elements_at(toks: Seq<TokenModel>, end: int, j: int, acc: Seq<ValueModel>) -> Result<
    (ValueModel, int),
    ErrorModel,
>
    decreases toks.len() - j, 3int,
{
    match parse_value_at(toks, end, j) {
        Err(e) => Err(e),
        Ok((v, k)) => {
            let acc2 = acc.push(v);
            if k < j || k >= toks.len() {
                failure(toks, end, k, ParseErrorKind::UnterminatedContainer)
            } else if toks[k].kind is Comma {
                parse_elements_at(toks, end, k + 1, acc2)
            } else if toks[k].kind is RightSquareBracket {
                Ok((ValueModel::Array(acc2), k + 1))
            } else {
                failure(toks, end, k, ParseErrorKind::UnexpectedToken)
            }
        },
    }
}

/// The top-level values from token `i` to the end, after the values `acc`.
pub open spec fn parse_values_from(toks: Seq<TokenModel>, end: int, i: int, acc: Seq<ValueModel>) -> Result<
    Seq<ValueModel>,
    ErrorModel,
>
    decreases toks.len() - i,
{
    if i < 0 || i >= toks.len() {
        Ok(acc)
    } else {
        match parse_value_at(toks, end, i) {
            Err(e) => Err(e),
            Ok((v, k)) => if i < k <= toks.len() {
                parse_values_from(toks, end, k, acc.push(v))
            } else {
                Ok(acc)
            },
        }
    }
}

/// The top-level values of a whole token sequence, or the first failure.
pub open spec fn parse_tokens(toks: Seq<TokenModel>, end: int) -> Result<Seq<ValueModel>, ErrorModel> {
    parse_values_from(toks, end, 0, Seq::empty())
}

/// What parsing the rest of a token stream gives: a scanning failure comes
/// first; otherwise the values of the whole token sequence.
pub open spec fn parse_stream(m: StreamModel) -> Result<Seq<ValueModel>, ErrorModel> {
    match scan_from(m.src, m.pos, m.line) {
        Err(e) => Err(e),
        Ok(toks) => parse_tokens(toks, scan_end_line(m.src, m.pos, m.line)),
    }
}

/// The model of a parse result.
pub open spec fn values_result_model(r: Result<Vec<JsonValue>, ParseError>) -> Result<
    Seq<ValueModel>,
    ErrorModel,
> {
    match r {
        Ok(v) => Ok(values_model(v@)),
        Err(e) => Err(e@),
    }
}

/// The model of a value read from a token index, with the index after it.
pub open spec fn step_model(r: Result<(JsonValue, usize), ParseError>) -> Result<
    (ValueModel, int),
    ErrorModel,
> {
    match r {
        Ok((v, k)) => Ok((v@, k as int)),
        Err(e) => Err(e@),
    }
}

// ---------------------------------------------------------------------------
// Laws of the grammar
// ---------------------------------------------------------------------------
/// An object is only ever parsed up to the `}` token that closes it: when it
/// succeeds, the last token it consumed is a `}` after its `{`. So an object
/// with no `}` after its `{` fails rather than yielding a partial object.
pub proof fn lemma_object_needs_closing_brace(toks: Seq<TokenModel>, end: int, i: int)
    ensures
        parse_object_at(toks, end, i) matches Ok((_, k)) ==> i < k - 1 < toks.len() && toks[k
            - 1].kind is RightCurlyBracket,
        (forall|j: int| i < j < toks.len() ==> !(#[trigger] toks[j].kind is RightCurlyBracket))
            ==> parse_object_at(toks, end, i) is Err,
{
    if 0 <= i && i + 1 < toks.len() && !(toks[i + 1].kind is RightCurlyBracket) {
        lemma_members_end_at_brace(toks, end, i + 1, Seq::empty());
    }
}

proof fn lemma_members_end_at_brace(toks: Seq<TokenModel>, end: int, j: int, acc: Seq<MemberModel>)
    ensures
        parse_members_at(toks, end, j, acc) matches Ok((_, k)) ==> j <= k - 1 < toks.len() && toks[k
            - 1].kind is RightCurlyBracket,
    decreases toks.len() - j,
{
    if 0 <= j < toks.len() && toks[j].kind is Str && j + 1 < toks.len() && toks[j
        + 1].kind is Colon {
        if let Ok((v, k)) = parse_value_at(toks, end, j + 2) {
            let name = toks[j].kind->Str_0;
            let acc2 = acc.push(MemberModel { name, value: v });
            if j <= k < toks.len() && toks[k].kind is Comma {
                lemma_members_end_at_brace(toks, end, k + 1, acc2);
            }
        }
    }
}

/// An array is only ever parsed up to the `]` token that closes it: when it
/// succeeds, the last token it consumed is a `]` after its `[`. So an array
/// with no `]` after its `[` fails rather than yielding a partial array.
pub proof fn lemma_array_needs_closing_bracket(toks: Seq<TokenModel>, end: int, i: int)
    ensures
        parse_array_at(toks, end, i) matches Ok((_, k)) ==> i < k - 1 < toks.len() && toks[k
            - 1].kind is RightSquareBracket,
        (forall|j: int| i < j < toks.len() ==> !(#[trigger] toks[j].kind is RightSquareBracket))
            ==> parse_array_at(toks, end, i) is Err,
{
    if 0 <= i && i + 1 < toks.len() && !(toks[i + 1].kind is RightSquareBracket) {
        lemma_elements_end_at_bracket(toks, end, i + 1, Seq::empty());
    }
}

proof fn lemma_elements_end_at_bracket(toks: Seq<TokenModel>, end: int, j: int, acc: Seq<ValueModel>)
    ensures
        parse_elements_at(toks, end, j, acc) matches Ok((_, k)) ==> j <= k - 1 < toks.len() && toks[k
            - 1].kind is RightSquareBracket,
    decreases toks.len() - j,
{
    if let Ok((v, k)) = parse_value_at(toks, end, j) {
        if j <= k < toks.len() && toks[k].kind is Comma {
            lemma_elements_end_at_bracket(toks, end, k + 1, acc.push(v));
        }
    }
}

/// A value that opens a container, wherever it stands, parses only up to the
/// delimiter that closes it: `{` to a `}`, `[` to a `]`. No container is
/// yielded that was not closed.
pub proof fn lemma_container_needs_closing(toks: Seq<TokenModel>, end: int, i: int)
    requires
        0 <= i < toks.len(),
    ensures
        toks[i].kind is LeftCurlyBracket ==> (parse_value_at(toks, end, i) matches Ok((_, k)) ==> i
            < k - 1 < toks.len() && toks[k - 1].kind is RightCurlyBracket),
        toks[i].kind is LeftSquareBracket ==> (parse_value_at(toks, end, i) matches Ok((_, k)) ==> i
            < k - 1 < toks.len() && toks[k - 1].kind is RightSquareBracket),
{
    lemma_object_needs_closing_brace(toks, end, i);
    lemma_array_needs_closing_bracket(toks, end, i);
}

// ---------------------------------------------------------------------------
// Recursive descent over a scanned token sequence
// ---------------------------------------------------------------------------
fn error_at(tokens: &Vec<Token>, end_line: usize, i: usize, kind: ParseErrorKind) -> (r: ParseError)
    ensures
        Err::<(ValueModel, int), ErrorModel>(r@) == failure::<(ValueModel, int)>(
            token_models(tokens@),
            end_line as int,
            i as int,
            kind,
        ),
{
    let line = if i < tokens.len() {
        tokens[i].line
    } else {
        end_line
    };
    ParseError::new(line, kind)
}

fn parse_primitive(tokens: &Vec<Token>, end_line: usize, i: usize) -> (r: Result<(JsonValue, usize), ParseError>)
    requires
        i < tokens.len(),
    ensures
        step_model(r) == parse_primitive_at(token_models(tokens@), end_line as int, i as int),
{
    let value = match &tokens[i].kind {
        TokenKind::String(s) => Primitive::String(s.clone()),
        TokenKind::Number(s) => Primitive::Number(s.clone()),
        TokenKind::True => Primitive::Boolean(true),
        TokenKind::False => Primitive::Boolean(false),
        TokenKind::Null => Primitive::Null,
        _ => {
            return Err(error_at(tokens, end_line, i, ParseErrorKind::NotAPrimitive));
        },
    };
    Ok((JsonValue::Primitive(value), i + 1))
}

fn parse_value(tokens: &Vec<Token>, end_line: usize, i: usize) -> (r: Result<(JsonValue, usize), ParseError>)
    requires
        i <= tokens.len(),
    ensures
        step_model(r) == parse_value_at(token_models(tokens@), end_line as int, i as int),
        r matches Ok((_, k)) ==> i < k <= tokens.len(),
    decreases tokens.len() - i, 2int,
{
    if i >= tokens.len() {
        return Err(error_at(tokens, end_line, i, ParseErrorKind::UnterminatedContainer));
    }
    match &tokens[i].kind {
        TokenKind::LeftCurlyBracket => parse_object(tokens, end_line, i),
        TokenKind::LeftSquareBracket => parse_array(tokens, end_line, i),
        _ => parse_primitive(tokens, end_line, i),
    }
}

fn parse_object(tokens: &Vec<Token>, end_line: usize, i: usize) -> (r: Result<(JsonValue, usize), ParseError>)
    requires
        i < tokens.len(),
    ensures
        step_model(r) == parse_object_at(token_models(tokens@), end_line as int, i as int),
        r matches Ok((_, k)) ==> i < k <= tokens.len(),
    decreases tokens.len() - i, 1int,
{
    let ghost toks = token_models(tokens@);
    if i + 1 >= tokens.len() {
        return Err(error_at(tokens, end_line, i + 1, ParseErrorKind::UnterminatedContainer));
    }
    if let TokenKind::RightCurlyBracket = &tokens[i + 1].kind {
        let empty: Vec<Member> = Vec::new();
        proof {
            lemma_object_model(empty);
            assert(members_model(empty@) =~= Seq::empty());
        }
        return Ok((JsonValue::Container(Container::Object(empty)), i + 2));
    }
    let mut members: Vec<Member> = Vec::new();
    let mut j: usize = i + 1;
    assert(members_model(members@) =~= Seq::empty());
    loop
        invariant
            i < j <= tokens.len(),
            toks == token_models(tokens@),
            parse_object_at(toks, end_line as int, i as int) == parse_members_at(toks, end_line as int,
                j as int,
                members_model(members@),
            ),
        decreases tokens.len() - j,
    {
        if j >= tokens.len() {
            return Err(error_at(tokens, end_line, j, ParseErrorKind::UnterminatedContainer));
        }
        let name = match &tokens[j].kind {
            TokenKind::String(s) => s.clone(),
            _ => {
                return Err(error_at(tokens, end_line, j, ParseErrorKind::UnexpectedToken));
            },
        };
        if j + 1 >= tokens.len() {
            return Err(error_at(tokens, end_line, j + 1, ParseErrorKind::UnterminatedContainer));
        }
        if let TokenKind::Colon = &tokens[j + 1].kind {
        } else {
            return Err(error_at(tokens, end_line, j + 1, ParseErrorKind::UnexpectedToken));
        }
        let (value, k) = match parse_value(tokens, end_line, j + 2) {
            Ok(p) => p,
            Err(e) => {
                return Err(e);
            },
        };
        let ghost before = members_model(members@);
        let ghost m = MemberModel { name: name@, value: value@ };
        members.push(Member { name, value });
        assert(members_model(members@) =~= before.push(m));
        if k >= tokens.len() {
            return Err(error_at(tokens, end_line, k, ParseErrorKind::UnterminatedContainer));
        }
        match &tokens[k].kind {
            TokenKind::Comma => {
                j = k + 1;
            },
            TokenKind::RightCurlyBracket => {
                proof {
                    lemma_object_model(members);
                }
                return Ok((JsonValue::Container(Container::Object(members)), k + 1));
            },
            _ => {
                return Err(error_at(tokens, end_line, k, ParseErrorKind::UnexpectedToken));
            },
        }
    }
}

fn parse_array(tokens: &Vec<Token>, end_line: usize, i: usize) -> (r: Result<(JsonValue, usize), ParseError>)
    requires
        i < tokens.len(),
    ensures
        step_model(r) == parse_array_at(token_models(tokens@), end_line as int, i as int),
        r matches Ok((_, k)) ==> i < k <= tokens.len(),
    decreases tokens.len() - i, 1int,
{
    let ghost toks = token_models(tokens@);
    if i + 1 >= tokens.len() {
        return Err(error_at(tokens, end_line, i + 1, ParseErrorKind::UnterminatedContainer));
    }
    if let TokenKind::RightSquareBracket = &tokens[i + 1].kind {
        let empty: Vec<JsonValue> = Vec::new();
        proof {
            lemma_array_model(empty);
            assert(values_model(empty@) =~= Seq::empty());
        }
        return Ok((JsonValue::Container(Container::Array(empty)), i + 2));
    }
    let mut items: Vec<JsonValue> = Vec::new();
    let mut j: usize = i + 1;
    assert(values_model(items@) =~= Seq::empty());
    loop
        invariant
            i < j <= tokens.len(),
            toks == token_models(tokens@),
            parse_array_at(toks, end_line as int, i as int) == parse_elements_at(toks, end_line as int,
                j as int,
                values_model(items@),
            ),
        decreases tokens.len() - j,
    {
        let (value, k) = match parse_value(tokens, end_line, j) {
            Ok(p) => p,
            Err(e) => {
                return Err(e);
            },
        };
        let ghost before = values_model(items@);
        let ghost v = value@;
        items.push(value);
        assert(values_model(items@) =~= before.push(v));
        if k >= tokens.len() {
            return Err(error_at(tokens, end_line, k, ParseErrorKind::UnterminatedContainer));
        }
        match &tokens[k].kind {
            TokenKind::Comma => {
                j = k + 1;
            },
            TokenKind::RightSquareBracket => {
                proof {
                    lemma_array_model(items);
                }
                return Ok((JsonValue::Container(Container::Array(items)), k + 1));
            },
            _ => {
                return Err(error_at(tokens, end_line, k, ParseErrorKind::UnexpectedToken));
            },
        }
    }
}

/// Parses a whole token sequence into its top-level values, or fails at the
/// first token that breaks the grammar. `end_line` is the line on which the
/// input ended: a container left open at the end is reported there.
pub fn parse_values(tokens: &Vec<Token>, end_line: usize) -> (r: Result<Vec<JsonValue>, ParseError>)
    ensures
        values_result_model(r) == parse_tokens(token_models(tokens@), end_line as int),
{
    let ghost toks = token_models(tokens@);
    let mut values: Vec<JsonValue> = Vec::new();
    let mut i: usize = 0;
    assert(values_model(values@) =~= Seq::empty());
    while i < tokens.len()
        invariant
            i <= tokens.len(),
            toks == token_models(tokens@),
            parse_tokens(toks, end_line as int) == parse_values_from(toks, end_line as int, i as int, values_model(values@)),
        decreases tokens.len() - i,
    {
        let (value, k) = match parse_value(tokens, end_line, i) {
            Ok(p) => p,
            Err(e) => {
                return Err(e);
            },
        };
        let ghost before = values_model(values@);
        let ghost v = value@;
        values.push(value);
        assert(values_model(values@) =~= before.push(v));
        i = k;
    }
    Ok(values)
}

/// A recursive-descent parser over a token stream.
pub struct Parser<'a> {
    ts: TokenStream<'a>,
}

impl<'a> View for Parser<'a> {
    type V = StreamModel;

    closed spec fn view(&self) -> StreamModel {
        self.ts@
    }
}

impl<'a> Parser<'a> {
    pub closed spec fn wf(&self) -> bool {
        self.ts.wf()
    }

    pub fn new(ts: TokenStream<'a>) -> (r: Self)
        requires
            ts.wf(),
        ensures
            r.wf(),
            r@ == ts@,
    {
        Self { ts }
    }

    /// Scans the rest of the stream to its end, then parses the tokens into
    /// the sequence of top-level values. The first failure, of the scan or of
    /// the grammar, is returned and nothing else.
    pub fn parse(&mut self) -> (r: Result<Vec<JsonValue>, ParseError>)
        requires
            old(self).wf(),
        ensures
            final(self).wf(),
            values_result_model(r) == parse_stream(old(self)@),
    {
        let tokens = match self.ts.scan_all() {
            Ok(t) => t,
            Err(e) => {
                return Err(e);
            },
        };
        let end_line = self.ts.line();
        parse_values(&tokens, end_line)
    }
}

} // verus!
