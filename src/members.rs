//! Members: the named, typed parts of entities, structures and events, alone or in
//! annotated groups.
use crate::annotations::{
    collect_property_names, property_names, Annotation, AnnotationOnlyBody, HasAnnotations,
};
use crate::concat::{flatten, lemma_flatten_all, lemma_flatten_prefix};
use crate::identifiers::{
    distinct_references, reference_set_of, Identifier, IdentifierReference, Span,
};
use vstd::prelude::*;

verus! {

/// Corresponds to the grammar rule `member_def`. A member whose type is written `unknown`
/// has no target type and is incomplete.
#[derive(Debug)]
pub struct Member {
    span: Option<Span>,
    name: Identifier,
    target_type: Option<IdentifierReference>,
    body: Option<AnnotationOnlyBody>,
}

impl Member {
    pub closed spec fn spec_span(&self) -> Option<Span> {
        self.span
    }

    pub closed spec fn spec_name(&self) -> Identifier {
        self.name
    }

    pub closed spec fn spec_target_type(&self) -> Option<IdentifierReference> {
        self.target_type
    }

    pub closed spec fn spec_body(&self) -> Option<AnnotationOnlyBody> {
        self.body
    }

    pub open spec fn spec_complete(&self) -> bool {
        self.spec_target_type() is Some
    }

    pub open spec fn spec_referenced_types(&self) -> Seq<IdentifierReference> {
        match self.spec_target_type() {
            Some(t) => seq![t],
            None => Seq::empty(),
        }
    }

    pub open spec fn spec_referenced_annotations(&self) -> Seq<IdentifierReference> {
        match self.spec_body() {
            Some(b) => property_names(b.spec_annotations()),
            None => Seq::empty(),
        }
    }

    pub fn new(name: Identifier, target_type: IdentifierReference) -> (r: Self)
        ensures
            r.spec_name() == name,
            r.spec_target_type() == Some(target_type),
            r.spec_body() is None,
            r.spec_span() is None,
    {
        Member { span: None, name, target_type: Some(target_type), body: None }
    }

    /// A member whose type is not known yet.
    pub fn new_unknown(name: Identifier) -> (r: Self)
        ensures
            r.spec_name() == name,
            r.spec_target_type() is None,
            r.spec_body() is None,
            r.spec_span() is None,
    {
        Member { span: None, name, target_type: None, body: None }
    }

    pub fn with_ts_span(self, ts_span: Span) -> (r: Self)
        ensures
            r.spec_span() == Some(ts_span),
            r.spec_name() == self.spec_name(),
            r.spec_target_type() == self.spec_target_type(),
            r.spec_body() == self.spec_body(),
    {
        Member { span: Some(ts_span), ..self }
    }

    pub fn with_body(self, body: AnnotationOnlyBody) -> (r: Self)
        ensures
            r.spec_body() == Some(body),
            r.spec_span() == self.spec_span(),
            r.spec_name() == self.spec_name(),
            r.spec_target_type() == self.spec_target_type(),
    {
        Member { body: Some(body), ..self }
    }

    pub fn ts_span(&self) -> (r: Option<Span>)
        ensures
            r == self.spec_span(),
    {
        self.span
    }

    pub fn name(&self) -> (r: &Identifier)
        ensures
            *r == self.spec_name(),
    {
        &self.name
    }

    pub fn target_type(&self) -> (r: Option<&IdentifierReference>)
        ensures
            r matches Some(t) ==> self.spec_target_type() == Some(*t),
            r is None <==> self.spec_target_type() is None,
    {
        self.target_type.as_ref()
    }

    pub fn body(&self) -> (r: Option<&AnnotationOnlyBody>)
        ensures
            r matches Some(b) ==> self.spec_body() == Some(*b),
            r is None <==> self.spec_body() is None,
    {
        self.body.as_ref()
    }

    pub fn is_complete(&self) -> (r: bool)
        ensures
            r == self.spec_complete(),
    {
        self.target_type.is_some()
    }

    pub fn referenced_types(&self) -> (r: Vec<IdentifierReference>)
        ensures
            reference_set_of(r@, self.spec_referenced_types()),
    {
        distinct_references(self.referenced_types_in_order())
    }

    /// In order of appearance, repeats kept.
    pub(crate) fn referenced_types_in_order(&self) -> (r: Vec<IdentifierReference>)
        ensures
            r@ == self.spec_referenced_types(),
    {
        let mut names: Vec<IdentifierReference> = Vec::new();
        if let Some(t) = &self.target_type {
            names.push(t.duplicate());
        }
        assert(names@ =~= self.spec_referenced_types());
        names
    }

    pub fn referenced_annotations(&self) -> (r: Vec<IdentifierReference>)
        ensures
            reference_set_of(r@, self.spec_referenced_annotations()),
    {
        distinct_references(self.referenced_annotations_in_order())
    }

    /// In order of appearance, repeats kept.
    pub(crate) fn referenced_annotations_in_order(&self) -> (r: Vec<IdentifierReference>)
        ensures
            r@ == self.spec_referenced_annotations(),
    {
        let mut names: Vec<IdentifierReference> = Vec::new();
        if let Some(b) = &self.body {
            collect_property_names(b.annotations(), &mut names);
        }
        assert(names@ =~= self.spec_referenced_annotations());
        names
    }
}

pub open spec fn all_members_complete(s: Seq<Member>) -> bool {
    forall|i: int| 0 <= i < s.len() ==> (#[trigger] s[i]).spec_complete()
}

pub fn members_are_complete(members: &Vec<Member>) -> (r: bool)
    ensures
        r == all_members_complete(members@),
{
    let mut i: usize = 0;
    while i < members.len()
        invariant
            i <= members@.len(),
            forall|j: int| 0 <= j < i ==> (#[trigger] members@[j]).spec_complete(),
        decreases members@.len() - i,
    {
        if !members[i].is_complete() {
            return false;
        }
        i = i + 1;
    }
    true
}

pub open spec fn member_types_fn() -> spec_fn(Member) -> Seq<IdentifierReference> {
    |m: Member| m.spec_referenced_types()
}

pub open spec fn member_annotations_fn() -> spec_fn(Member) -> Seq<IdentifierReference> {
    |m: Member| m.spec_referenced_annotations()
}

/// Appends the types that `members` refer to, in order.
pub fn collect_member_types(members: &Vec<Member>, names: &mut Vec<IdentifierReference>)
    ensures
        final(names)@ == old(names)@ + flatten(members@, member_types_fn()),
{
    let ghost start = names@;
    let mut i: usize = 0;
    while i < members.len()
        invariant
            i <= members@.len(),
            names@ == start + flatten(members@.subrange(0, i as int), member_types_fn()),
        decreases members@.len() - i,
    {
        proof {
            lemma_flatten_prefix(members@, i as int, member_types_fn());
        }
        let mut more = members[i].referenced_types_in_order();
        names.append(&mut more);
        assert(names@ =~= start + flatten(members@.subrange(0, i + 1), member_types_fn()));
        i = i + 1;
    }
    proof {
        lemma_flatten_all(members@, member_types_fn());
    }
}

/// Appends the annotation properties that `members` name, in order.
pub fn collect_member_annotations(members: &Vec<Member>, names: &mut Vec<IdentifierReference>)
    ensures
        final(names)@ == old(names)@ + flatten(members@, member_annotations_fn()),
{
    let ghost start = names@;
    let mut i: usize = 0;
    while i < members.len()
        invariant
            i <= members@.len(),
            names@ == start + flatten(members@.subrange(0, i as int), member_annotations_fn()),
        decreases members@.len() - i,
    {
        proof {
            lemma_flatten_prefix(members@, i as int, member_annotations_fn());
        }
        let mut more = members[i].referenced_annotations_in_order();
        names.append(&mut more);
        assert(names@ =~= start + flatten(members@.subrange(0, i + 1), member_annotations_fn()));
        i = i + 1;
    }
    proof {
        lemma_flatten_all(members@, member_annotations_fn());
    }
}

/// Corresponds to the grammar rule `member_group`: members that share annotations.
#[derive(Debug)]
pub struct MemberGroup {
    span: Option<Span>,
    annotations: Vec<Annotation>,
    members: Vec<Member>,
}

impl MemberGroup {
    pub closed spec fn spec_span(&self) -> Option<Span> {
        self.span
    }

    pub closed spec fn spec_annotations(&self) -> Seq<Annotation> {
        self.annotations@
    }

    pub closed spec fn spec_members(&self) -> Seq<Member> {
        self.members@
    }

    pub open spec fn spec_complete(&self) -> bool {
        all_members_complete(self.spec_members())
    }

    pub fn new(members: Vec<Member>) -> (r: Self)
        ensures
            r.spec_members() == members@,
            r.spec_annotations().len() == 0,
            r.spec_span() is None,
    {
        MemberGroup { span: None, annotations: Vec::new(), members }
    }

    pub fn ts_span(&self) -> (r: Option<Span>)
        ensures
            r == self.spec_span(),
    {
        self.span
    }

    pub fn annotations(&self) -> (r: &Vec<Annotation>)
        ensures
            r@ == self.spec_annotations(),
    {
        &self.annotations
    }

    pub fn add_to_annotations(&mut self, value: Annotation)
        ensures
            final(self).spec_annotations() == old(self).spec_annotations().push(value),
            final(self).spec_members() == old(self).spec_members(),
            final(self).spec_span() == old(self).spec_span(),
    {
        self.annotations.push(value);
    }

    pub fn members(&self) -> (r: &Vec<Member>)
        ensures
            r@ == self.spec_members(),
    {
        &self.members
    }

    pub fn add_to_members(&mut self, value: Member)
        ensures
            final(self).spec_members() == old(self).spec_members().push(value),
            final(self).spec_annotations() == old(self).spec_annotations(),
            final(self).spec_span() == old(self).spec_span(),
    {
        self.members.push(value);
    }

    pub fn is_complete(&self) -> (r: bool)
        ensures
            r == self.spec_complete(),
    {
        members_are_complete(&self.members)
    }
}

impl HasAnnotations for MemberGroup {
    open spec fn annotations_view(&self) -> Seq<Annotation> {
        self.spec_annotations()
    }

    fn annotations(&self) -> (r: &Vec<Annotation>) {
        &self.annotations
    }
}

} // verus!
