//! The values that annotation properties carry.
use crate::identifiers::{IdentifierReference, Span};
use vstd::prelude::*;

verus! {

/// A string with an optional language tag (`"text"@en`).
#[derive(Debug)]
pub struct LanguageString {
    span: Option<Span>,
    value: String,
    language: Option<String>,
}

impl LanguageString {
    pub closed spec fn spec_span(&self) -> Option<Span> {
        self.span
    }

    pub closed spec fn spec_value(&self) -> Seq<char> {
        self.value@
    }

    pub closed spec fn spec_language(&self) -> Option<Seq<char>> {
        match self.language {
            Some(l) => Some(l@),
            None => None,
        }
    }

    pub fn new(value: String, language: Option<String>) -> (r: Self)
        ensures
            r.spec_value() == value@,
            r.spec_span() is None,
            r.spec_language() == (match language {
                Some(l) => Some(l@),
                None => None::<Seq<char>>,
            }),
    {
        LanguageString { span: None, value, language }
    }

    pub fn value(&self) -> (r: &String)
        ensures
            r@ == self.spec_value(),
    {
        &self.value
    }

    pub fn ts_span(&self) -> (r: Option<Span>)
        ensures
            r == self.spec_span(),
    {
        self.span
    }
}

/// Corresponds to the grammar rule `simple_value`.
#[derive(Debug)]
pub enum SimpleValue {
    Boolean(bool),
    Unsigned(u64),
    String(LanguageString),
    IriReference(String),
}

/// Corresponds to the grammar rule `value`: a literal, a value built by a named type, a
/// mapping, a list of literals, or a reference to a named thing.
#[derive(Debug)]
pub enum Value {
    Simple(SimpleValue),
    ValueConstructor(IdentifierReference, SimpleValue),
    Mapping(SimpleValue, SimpleValue),
    List(Vec<SimpleValue>),
    Reference(IdentifierReference),
}

impl Value {
    pub fn is_reference(&self) -> (r: bool)
        ensures
            r == (self is Reference),
    {
        matches!(self, Value::Reference(_))
    }

    pub fn as_reference(&self) -> (r: Option<&IdentifierReference>)
        ensures
            r matches Some(v) ==> *self == Value::Reference(*v),
            r is None <==> !(self is Reference),
    {
        match self {
            Value::Reference(v) => Some(v),
            _ => None,
        }
    }

    pub fn as_string(&self) -> (r: Option<&LanguageString>)
        ensures
            r matches Some(v) ==> *self == Value::Simple(SimpleValue::String(*v)),
            r is None <==> !(self matches Value::Simple(SimpleValue::String(_))),
    {
        match self {
            Value::Simple(SimpleValue::String(v)) => Some(v),
            _ => None,
        }
    }
}

} // verus!
