use vstd::prelude::*;

verus! {

// <json>      ::= <primitive> | <container>
// <primitive> ::= <number> | <string> | true | false | null
// <container> ::= <object> | <array>
// <array>     ::= '[' [ <json> *( ',' <json> ) ] ']'
// <object>    ::= '{' [ <member> *( ',' <member> ) ] '}'
// <member>    ::= <string> ':' <json>
/// The mathematical model of a JSON value.
pub enum ValueModel {
    Number(Seq<char>),
    Str(Seq<char>),
    Boolean(bool),
    Null,
    Object(Seq<MemberModel>),
    Array(Seq<ValueModel>),
}

/// The mathematical model of an object member.
pub struct MemberModel {
    pub name: Seq<char>,
    pub value: ValueModel,
}

/// A parsed JSON value: a leaf or a container that owns its children.
#[derive(Debug, PartialEq)]
pub enum JsonValue {
    Primitive(Primitive),
    Container(Container),
}

/// A leaf value. A number holds the digit run it was read from; a string holds
/// its lexeme verbatim, enclosing quotes included.
#[derive(Debug, Clone, PartialEq)]
pub enum Primitive {
    Number(String),
    String(String),
    Boolean(bool),
    Null,
}

/// A composite value. Members and elements keep their source order; an
/// object may hold the same name more than once.
#[derive(Debug, PartialEq)]
pub enum Container {
    Object(Vec<Member>),
    Array(Vec<JsonValue>),
}

/// One name/value entry of an object; the name keeps its enclosing quotes.
#[derive(Debug, PartialEq)]
pub struct Member {
    pub name: String,
    pub value: JsonValue,
}

impl View for Primitive {
    type V = ValueModel;

    open spec fn view(&self) -> ValueModel {
        match self {
            Primitive::Number(s) => ValueModel::Number(s@),
            Primitive::String(s) => ValueModel::Str(s@),
            Primitive::Boolean(b) => ValueModel::Boolean(*b),
            Primitive::Null => ValueModel::Null,
        }
    }
}

/// The model of a value.
pub open spec fn value_model(v: JsonValue) -> ValueModel
    decreases v,
{
    match v {
        JsonValue::Primitive(p) => p@,
        JsonValue::Container(Container::Array(items)) => ValueModel::Array(
            Seq::new(
                items.len() as nat,
                |i: int|
                    if 0 <= i < items.len() {
                        value_model(items[i])
                    } else {
                        ValueModel::Null
                    },
            ),
        ),
        JsonValue::Container(Container::Object(members)) => ValueModel::Object(
            Seq::new(
                members.len() as nat,
                |i: int|
                    if 0 <= i < members.len() {
                        MemberModel { name: members[i].name@, value: value_model(members[i].value) }
                    } else {
                        MemberModel { name: Seq::empty(), value: ValueModel::Null }
                    },
            ),
        ),
    }
}

/// The models of a sequence of values.
pub open spec fn values_model(vs: Seq<JsonValue>) -> Seq<ValueModel> {
    Seq::new(vs.len(), |i: int| value_model(vs[i]))
}

/// The models of a sequence of members.
pub open spec fn members_model(ms: Seq<Member>) -> Seq<MemberModel> {
    Seq::new(ms.len(), |i: int| MemberModel { name: ms[i].name@, value: value_model(ms[i].value) })
}

impl View for JsonValue {
    type V = ValueModel;

    open spec fn view(&self) -> ValueModel {
        value_model(*self)
    }
}

pub proof fn lemma_array_model(items: Vec<JsonValue>)
    ensures
        value_model(JsonValue::Container(Container::Array(items))) == ValueModel::Array(
            values_model(items@),
        ),
{
    let v = value_model(JsonValue::Container(Container::Array(items)));
    assert(v->Array_0 =~= values_model(items@));
}

pub proof fn lemma_object_model(members: Vec<Member>)
    ensures
        value_model(JsonValue::Container(Container::Object(members))) == ValueModel::Object(
            members_model(members@),
        ),
{
    let v = value_model(JsonValue::Container(Container::Object(members)));
    assert(v->Object_0 =~= members_model(members@));
}

} // verus!
