//! Sequence comprehensions of the formal constraint language: the variables that a
//! comprehension binds and the sentence that it filters by. The sentence is kept as
//! written; nothing here evaluates it.
use crate::identifiers::{Identifier, Span};
use vstd::prelude::*;

verus! {

/// A quantified sentence of the formal constraint language, as written.
#[derive(Debug)]
pub struct QuantifiedSentence {
    span: Option<Span>,
    text: String,
}

impl QuantifiedSentence {
    pub closed spec fn spec_span(&self) -> Option<Span> {
        self.span
    }

    pub fn ts_span(&self) -> (r: Option<Span>)
        ensures
            r == self.spec_span(),
    {
        self.span
    }

    pub closed spec fn spec_text(&self) -> Seq<char> {
        self.text@
    }

    pub fn new(text: String) -> (r: Self)
        ensures
            r.spec_text() == text@,
            r.spec_span() is None,
    {
        QuantifiedSentence { span: None, text }
    }

    pub fn text(&self) -> (r: &String)
        ensures
            r@ == self.spec_text(),
    {
        &self.text
    }
}

/// No two of `s` are written the same.
pub open spec fn distinct_names(s: Seq<Identifier>) -> bool {
    forall|i: int, j: int|
        0 <= i < j < s.len() ==> (#[trigger] s[i]).spec_value() != (#[trigger] s[j]).spec_value()
}

/// Whether some identifier of `s` is written as `name`.
pub open spec fn has_name(s: Seq<Identifier>, name: Seq<char>) -> bool {
    exists|i: int| 0 <= i < s.len() && (#[trigger] s[i]).spec_value() == name
}

fn contains_name(names: &Vec<Identifier>, name: &Identifier) -> (r: bool)
    ensures
        r == has_name(names@, name.spec_value()),
{
    let mut i: usize = 0;
    while i < names.len()
        invariant
            i <= names@.len(),
            forall|j: int| 0 <= j < i ==> (#[trigger] names@[j]).spec_value() != name.spec_value(),
        decreases names@.len() - i,
    {
        if names[i] == *name {
            return true;
        }
        i = i + 1;
    }
    false
}

/// Corresponds to the grammar rule `named_variable_set`: a set of variable names.
#[derive(Debug)]
pub struct NamedVariables {
    span: Option<Span>,
    names: Vec<Identifier>,
}

impl NamedVariables {
    pub closed spec fn spec_span(&self) -> Option<Span> {
        self.span
    }

    pub closed spec fn spec_names(&self) -> Seq<Identifier> {
        self.names@
    }

    /// The names are a set: none is written twice.
    pub open spec fn spec_wf(&self) -> bool {
        distinct_names(self.spec_names())
    }

    /// The set of the names given: each name written more than once is kept once.
    pub fn new(names: Vec<Identifier>) -> (r: Self)
        ensures
            r.spec_wf(),
            r.spec_span() is None,
            forall|i: int|
                0 <= i < names@.len() ==> has_name(
                    r.spec_names(),
                    (#[trigger] names@[i]).spec_value(),
                ),
            forall|j: int|
                0 <= j < r.spec_names().len() ==> has_name(
                    names@,
                    (#[trigger] r.spec_names()[j]).spec_value(),
                ),
    {
        let ghost given = names@;
        let mut rest = names;
        let mut kept: Vec<Identifier> = Vec::new();
        let ghost mut k: int = 0;
        while rest.len() > 0
            invariant
                0 <= k <= given.len(),
                rest@ == given.subrange(k, given.len() as int),
                distinct_names(kept@),
                forall|i: int|
                    0 <= i < k ==> has_name(kept@, (#[trigger] given[i]).spec_value()),
                forall|j: int|
                    0 <= j < kept@.len() ==> has_name(
                        given,
                        (#[trigger] kept@[j]).spec_value(),
                    ),
            decreases rest@.len(),
        {
            let name = rest.remove(0);
            assert(name == given[k]);
            let ghost before = kept@;
            if !contains_name(&kept, &name) {
                kept.push(name);
                assert forall|i: int| 0 <= i < k + 1 implies has_name(
                    kept@,
                    (#[trigger] given[i]).spec_value(),
                ) by {
                    if i < k {
                        let w = choose|w: int|
                            0 <= w < before.len() && (#[trigger] before[w]).spec_value()
                                == given[i].spec_value();
                        assert(kept@[w] == before[w]);
                    } else {
                        assert(kept@[before.len() as int] == given[k]);
                    }
                }
                assert forall|j: int| 0 <= j < kept@.len() implies has_name(
                    given,
                    (#[trigger] kept@[j]).spec_value(),
                ) by {
                    if j == before.len() {
                        assert(given[k] == kept@[j]);
                    } else {
                        assert(kept@[j] == before[j]);
                    }
                }
            }
            proof {
                assert(rest@ =~= given.subrange(k + 1, given.len() as int));
                k = k + 1;
            }
        }
        NamedVariables { span: None, names: kept }
    }

    pub fn names(&self) -> (r: &Vec<Identifier>)
        ensures
            r@ == self.spec_names(),
    {
        &self.names
    }

    pub fn ts_span(&self) -> (r: Option<Span>)
        ensures
            r == self.spec_span(),
    {
        self.span
    }
}

/// Corresponds to the grammar rule `mapping_variable`: a `domain -> range` pair.
#[derive(Debug)]
pub struct MappingVariable {
    span: Option<Span>,
    domain: Identifier,
    range: Identifier,
}

impl MappingVariable {
    pub closed spec fn spec_span(&self) -> Option<Span> {
        self.span
    }

    pub fn ts_span(&self) -> (r: Option<Span>)
        ensures
            r == self.spec_span(),
    {
        self.span
    }

    pub closed spec fn spec_domain(&self) -> Identifier {
        self.domain
    }

    pub closed spec fn spec_range(&self) -> Identifier {
        self.range
    }

    pub fn new(domain: Identifier, range: Identifier) -> (r: Self)
        ensures
            r.spec_domain() == domain,
            r.spec_range() == range,
            r.spec_span() is None,
    {
        MappingVariable { span: None, domain, range }
    }

    pub fn domain(&self) -> (r: &Identifier)
        ensures
            *r == self.spec_domain(),
    {
        &self.domain
    }

    pub fn set_domain(&mut self, domain: Identifier)
        ensures
            final(self).spec_domain() == domain,
            final(self).spec_range() == old(self).spec_range(),
            final(self).spec_span() == old(self).spec_span(),
    {
        self.domain = domain;
    }

    pub fn range(&self) -> (r: &Identifier)
        ensures
            *r == self.spec_range(),
    {
        &self.range
    }

    pub fn set_range(&mut self, range: Identifier)
        ensures
            final(self).spec_range() == range,
            final(self).spec_domain() == old(self).spec_domain(),
            final(self).spec_span() == old(self).spec_span(),
    {
        self.range = range;
    }
}

/// The variables that a sequence comprehension binds.
#[derive(Debug)]
pub enum Variables {
    Named(NamedVariables),
    Mapping(MappingVariable),
}

impl Variables {
    pub fn is_named_set(&self) -> (r: bool)
        ensures
            r == (self is Named),
    {
        matches!(self, Variables::Named(_))
    }

    pub fn as_named_set(&self) -> (r: Option<&NamedVariables>)
        ensures
            r matches Some(v) ==> *self == Variables::Named(*v),
            r is None <==> self is Mapping,
    {
        match self {
            Variables::Named(v) => Some(v),
            Variables::Mapping(_) => None,
        }
    }

    pub fn is_mapping(&self) -> (r: bool)
        ensures
            r == (self is Mapping),
    {
        matches!(self, Variables::Mapping(_))
    }

    pub fn as_mapping(&self) -> (r: Option<&MappingVariable>)
        ensures
            r matches Some(v) ==> *self == Variables::Mapping(*v),
            r is None <==> self is Named,
    {
        match self {
            Variables::Named(_) => None,
            Variables::Mapping(v) => Some(v),
        }
    }
}

/// Corresponds to the grammar rule `sequence_builder`: `{ variables | sentence }`.
#[derive(Debug)]
pub struct SequenceBuilder {
    span: Option<Span>,
    variables: Variables,
    body: QuantifiedSentence,
}

impl SequenceBuilder {
    pub closed spec fn spec_span(&self) -> Option<Span> {
        self.span
    }

    pub fn ts_span(&self) -> (r: Option<Span>)
        ensures
            r == self.spec_span(),
    {
        self.span
    }

    pub closed spec fn spec_variables(&self) -> Variables {
        self.variables
    }

    pub closed spec fn spec_body(&self) -> QuantifiedSentence {
        self.body
    }

    pub fn new(variables: Variables, body: QuantifiedSentence) -> (r: Self)
        ensures
            r.spec_variables() == variables,
            r.spec_body() == body,
            r.spec_span() is None,
    {
        SequenceBuilder { span: None, variables, body }
    }

    pub fn variables(&self) -> (r: &Variables)
        ensures
            *r == self.spec_variables(),
    {
        &self.variables
    }

    pub fn set_variables(&mut self, variables: Variables)
        ensures
            final(self).spec_variables() == variables,
            final(self).spec_body() == old(self).spec_body(),
            final(self).spec_span() == old(self).spec_span(),
    {
        self.variables = variables;
    }

    pub fn body(&self) -> (r: &QuantifiedSentence)
        ensures
            *r == self.spec_body(),
    {
        &self.body
    }

    pub fn set_body(&mut self, body: QuantifiedSentence)
        ensures
            final(self).spec_body() == body,
            final(self).spec_variables() == old(self).spec_variables(),
            final(self).spec_span() == old(self).spec_span(),
    {
        self.body = body;
    }
}

} // verus!
