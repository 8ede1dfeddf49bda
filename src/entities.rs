//! Entity definitions: things with an identity, members and groups of members.
use crate::annotations::{
    annotation_constraints, annotation_properties, collect_property_names, constraints_fn,
    properties_fn, property_names, Annotation, AnnotationProperty, HasAnnotations,
};
use crate::concat::{flatten, lemma_flatten_all, lemma_flatten_concat, lemma_flatten_prefix};
use crate::constraints::Constraint;
use crate::identifiers::{
    distinct_references, reference_set_of, Identifier, IdentifierReference, Span,
};
use crate::members::Member;
use vstd::prelude::*;

verus! {

/// Corresponds to the inner part of the grammar rule `entity_group`.
#[derive(Debug)]
pub enum EntityMember {
    ByValue(Member),
    ByReference(Member),
}

impl EntityMember {
    pub open spec fn spec_member(&self) -> Member {
        match self {
            EntityMember::ByValue(m) => *m,
            EntityMember::ByReference(m) => *m,
        }
    }

    pub fn is_by_value(&self) -> (r: bool)
        ensures
            r == (self is ByValue),
    {
        matches!(self, EntityMember::ByValue(_))
    }

    pub fn as_by_value(&self) -> (r: Option<&Member>)
        ensures
            r matches Some(m) ==> *self == EntityMember::ByValue(*m),
            r is None <==> !(self is ByValue),
    {
        match self {
            EntityMember::ByValue(m) => Some(m),
            _ => None,
        }
    }

    pub fn is_by_reference(&self) -> (r: bool)
        ensures
            r == (self is ByReference),
    {
        matches!(self, EntityMember::ByReference(_))
    }

    pub fn as_by_reference(&self) -> (r: Option<&Member>)
        ensures
            r matches Some(m) ==> *self == EntityMember::ByReference(*m),
            r is None <==> !(self is ByReference),
    {
        match self {
            EntityMember::ByReference(m) => Some(m),
            _ => None,
        }
    }

    pub fn member(&self) -> (r: &Member)
        ensures
            *r == self.spec_member(),
    {
        match self {
            EntityMember::ByValue(m) => m,
            EntityMember::ByReference(m) => m,
        }
    }

    pub fn name(&self) -> (r: &Identifier)
        ensures
            *r == self.spec_member().spec_name(),
    {
        self.member().name()
    }

    pub fn target_type(&self) -> (r: Option<&IdentifierReference>)
        ensures
            r matches Some(t) ==> self.spec_member().spec_target_type() == Some(*t),
            r is None <==> self.spec_member().spec_target_type() is None,
    {
        self.member().target_type()
    }

    pub fn is_complete(&self) -> (r: bool)
        ensures
            r == self.spec_member().spec_complete(),
    {
        self.member().is_complete()
    }

    pub fn referenced_annotations(&self) -> (r: Vec<IdentifierReference>)
        ensures
            reference_set_of(r@, self.spec_member().spec_referenced_annotations()),
    {
        distinct_references(self.referenced_annotations_in_order())
    }

    /// In order of appearance, repeats kept.
    pub(crate) fn referenced_annotations_in_order(&self) -> (r: Vec<IdentifierReference>)
        ensures
            r@ == self.spec_member().spec_referenced_annotations(),
    {
        self.member().referenced_annotations_in_order()
    }

    pub fn referenced_types(&self) -> (r: Vec<IdentifierReference>)
        ensures
            reference_set_of(r@, self.spec_member().spec_referenced_types()),
    {
        distinct_references(self.referenced_types_in_order())
    }

    /// In order of appearance, repeats kept.
    pub(crate) fn referenced_types_in_order(&self) -> (r: Vec<IdentifierReference>)
        ensures
            r@ == self.spec_member().spec_referenced_types(),
    {
        self.member().referenced_types_in_order()
    }
}

pub open spec fn all_entity_members_complete(s: Seq<EntityMember>) -> bool {
    forall|i: int| 0 <= i < s.len() ==> (#[trigger] s[i]).spec_member().spec_complete()
}

fn entity_members_are_complete(members: &Vec<EntityMember>) -> (r: bool)
    ensures
        r == all_entity_members_complete(members@),
{
    let mut i: usize = 0;
    while i < members.len()
        invariant
            i <= members@.len(),
            forall|j: int| 0 <= j < i ==> (#[trigger] members@[j]).spec_member().spec_complete(),
        decreases members@.len() - i,
    {
        if !members[i].is_complete() {
            return false;
        }
        i = i + 1;
    }
    true
}

pub open spec fn entity_member_types_fn() -> spec_fn(EntityMember) -> Seq<IdentifierReference> {
    |m: EntityMember| m.spec_member().spec_referenced_types()
}

pub open spec fn entity_member_annotations_fn() -> spec_fn(EntityMember) -> Seq<
    IdentifierReference,
> {
    |m: EntityMember| m.spec_member().spec_referenced_annotations()
}

/// Appends, for each of `members` in order, the types it refers to where `types` holds,
/// else the annotation properties it names.
fn collect_from_entity_members(
    members: &Vec<EntityMember>,
    types: bool,
    names: &mut Vec<IdentifierReference>,
)
    ensures
        final(names)@ == old(names)@ + flatten(
            members@,
            if types {
                entity_member_types_fn()
            } else {
                entity_member_annotations_fn()
            },
        ),
{
    let ghost f = if types {
        entity_member_types_fn()
    } else {
        entity_member_annotations_fn()
    };
    let ghost start = names@;
    let mut i: usize = 0;
    while i < members.len()
        invariant
            i <= members@.len(),
            f == (if types {
                entity_member_types_fn()
            } else {
                entity_member_annotations_fn()
            }),
            names@ == start + flatten(members@.subrange(0, i as int), f),
        decreases members@.len() - i,
    {
        proof {
            lemma_flatten_prefix(members@, i as int, f);
        }
        let mut more = if types {
            members[i].referenced_types_in_order()
        } else {
            members[i].referenced_annotations_in_order()
        };
        names.append(&mut more);
        assert(names@ =~= start + flatten(members@.subrange(0, i + 1), f));
        i = i + 1;
    }
    proof {
        lemma_flatten_all(members@, f);
    }
}

/// Corresponds to the grammar rule `entity_group`.
#[derive(Debug)]
pub struct EntityGroup {
    span: Option<Span>,
    annotations: Vec<Annotation>,
    members: Vec<EntityMember>,
}

impl EntityGroup {
    pub closed spec fn spec_span(&self) -> Option<Span> {
        self.span
    }

    pub closed spec fn spec_annotations(&self) -> Seq<Annotation> {
        self.annotations@
    }

    pub closed spec fn spec_members(&self) -> Seq<EntityMember> {
        self.members@
    }

    pub open spec fn spec_complete(&self) -> bool {
        all_entity_members_complete(self.spec_members())
    }

    pub open spec fn spec_referenced_types(&self) -> Seq<IdentifierReference> {
        flatten(self.spec_members(), entity_member_types_fn())
    }

    pub open spec fn spec_referenced_annotations(&self) -> Seq<IdentifierReference> {
        property_names(self.spec_annotations())
    }

    pub fn new(members: Vec<EntityMember>) -> (r: Self)
        ensures
            r.spec_members() == members@,
            r.spec_annotations().len() == 0,
            r.spec_span() is None,
    {
        EntityGroup { span: None, annotations: Vec::new(), members }
    }

    pub fn with_ts_span(self, ts_span: Span) -> (r: Self)
        ensures
            r.spec_span() == Some(ts_span),
            r.spec_annotations() == self.spec_annotations(),
            r.spec_members() == self.spec_members(),
    {
        EntityGroup { span: Some(ts_span), ..self }
    }

    pub fn has_ts_span(&self) -> (r: bool)
        ensures
            r == self.spec_span() is Some,
    {
        self.span.is_some()
    }

    pub fn ts_span(&self) -> (r: Option<Span>)
        ensures
            r == self.spec_span(),
    {
        self.span
    }

    pub fn set_ts_span(&mut self, span: Span)
        ensures
            final(self).spec_span() == Some(span),
            final(self).spec_annotations() == old(self).spec_annotations(),
            final(self).spec_members() == old(self).spec_members(),
    {
        self.span = Some(span);
    }

    pub fn unset_ts_span(&mut self)
        ensures
            final(self).spec_span() is None,
            final(self).spec_annotations() == old(self).spec_annotations(),
            final(self).spec_members() == old(self).spec_members(),
    {
        self.span = None;
    }

    pub fn has_annotations(&self) -> (r: bool)
        ensures
            r == (self.spec_annotations().len() > 0),
    {
        self.annotations.len() > 0
    }

    pub fn annotations_len(&self) -> (r: usize)
        ensures
            r == self.spec_annotations().len(),
    {
        self.annotations.len()
    }

    pub fn annotations(&self) -> (r: &Vec<Annotation>)
        ensures
            r@ == self.spec_annotations(),
    {
        &self.annotations
    }

    pub fn add_to_annotations(&mut self, value: Annotation)
        ensures
            final(self).spec_annotations() == old(self).spec_annotations().push(value),
            final(self).spec_members() == old(self).spec_members(),
            final(self).spec_span() == old(self).spec_span(),
    {
        self.annotations.push(value);
    }

    pub fn extend_annotations(&mut self, extension: Vec<Annotation>)
        ensures
            final(self).spec_annotations() == old(self).spec_annotations() + extension@,
            final(self).spec_members() == old(self).spec_members(),
            final(self).spec_span() == old(self).spec_span(),
    {
        let mut extension = extension;
        self.annotations.append(&mut extension);
    }

    pub fn annotation_properties(&self) -> (r: Vec<&AnnotationProperty>)
        ensures
            r@.len() == flatten(self.spec_annotations(), properties_fn()).len(),
            forall|i: int|
                0 <= i < r@.len() ==> *r@[i] == #[trigger] flatten(
                    self.spec_annotations(),
                    properties_fn(),
                )[i],
    {
        annotation_properties(&self.annotations)
    }

    pub fn annotation_constraints(&self) -> (r: Vec<&Constraint>)
        ensures
            r@.len() == flatten(self.spec_annotations(), constraints_fn()).len(),
            forall|i: int|
                0 <= i < r@.len() ==> *r@[i] == #[trigger] flatten(
                    self.spec_annotations(),
                    constraints_fn(),
                )[i],
    {
        annotation_constraints(&self.annotations)
    }

    pub fn has_members(&self) -> (r: bool)
        ensures
            r == (self.spec_members().len() > 0),
    {
        self.members.len() > 0
    }

    pub fn members_len(&self) -> (r: usize)
        ensures
            r == self.spec_members().len(),
    {
        self.members.len()
    }

    pub fn members(&self) -> (r: &Vec<EntityMember>)
        ensures
            r@ == self.spec_members(),
    {
        &self.members
    }

    pub fn add_to_members(&mut self, value: EntityMember)
        ensures
            final(self).spec_members() == old(self).spec_members().push(value),
            final(self).spec_annotations() == old(self).spec_annotations(),
            final(self).spec_span() == old(self).spec_span(),
    {
        self.members.push(value);
    }

    pub fn extend_members(&mut self, extension: Vec<EntityMember>)
        ensures
            final(self).spec_members() == old(self).spec_members() + extension@,
            final(self).spec_annotations() == old(self).spec_annotations(),
            final(self).spec_span() == old(self).spec_span(),
    {
        let mut extension = extension;
        self.members.append(&mut extension);
    }

    pub fn is_complete(&self) -> (r: bool)
        ensures
            r == self.spec_complete(),
    {
        entity_members_are_complete(&self.members)
    }

    /// The annotations, to change in place.
    pub fn annotations_mut(&mut self) -> (r: &mut Vec<Annotation>)
        ensures
            r@ == old(self).spec_annotations(),
            final(self).spec_annotations() == final(r)@,
            final(self).spec_span() == old(self).spec_span(),
            final(self).spec_members() == old(self).spec_members(),
    {
        &mut self.annotations
    }

    /// The members, to change in place.
    pub fn members_mut(&mut self) -> (r: &mut Vec<EntityMember>)
        ensures
            r@ == old(self).spec_members(),
            final(self).spec_members() == final(r)@,
            final(self).spec_span() == old(self).spec_span(),
            final(self).spec_annotations() == old(self).spec_annotations(),
    {
        &mut self.members
    }

    /// The annotation properties that the group itself names, in order.
    pub fn referenced_annotations(&self) -> (r: Vec<IdentifierReference>)
        ensures
            reference_set_of(r@, self.spec_referenced_annotations()),
    {
        distinct_references(self.referenced_annotations_in_order())
    }

    /// In order of appearance, repeats kept.
    pub(crate) fn referenced_annotations_in_order(&self) -> (r: Vec<IdentifierReference>)
        ensures
            r@ == self.spec_referenced_annotations(),
    {
        let mut names: Vec<IdentifierReference> = Vec::new();
        collect_property_names(&self.annotations, &mut names);
        assert(names@ =~= self.spec_referenced_annotations());
        names
    }

    /// The types that the group's members refer to, in order.
    pub fn referenced_types(&self) -> (r: Vec<IdentifierReference>)
        ensures
            reference_set_of(r@, self.spec_referenced_types()),
    {
        distinct_references(self.referenced_types_in_order())
    }

    /// In order of appearance, repeats kept.
    pub(crate) fn referenced_types_in_order(&self) -> (r: Vec<IdentifierReference>)
        ensures
            r@ == self.spec_referenced_types(),
    {
        let mut names: Vec<IdentifierReference> = Vec::new();
        collect_from_entity_members(&self.members, true, &mut names);
        assert(names@ =~= self.spec_referenced_types());
        names
    }
}

pub open spec fn all_groups_complete(s: Seq<EntityGroup>) -> bool {
    forall|i: int| 0 <= i < s.len() ==> (#[trigger] s[i]).spec_complete()
}

pub open spec fn group_members_fn() -> spec_fn(EntityGroup) -> Seq<EntityMember> {
    |g: EntityGroup| g.spec_members()
}

/// Corresponds to the grammar rule `entity_body`.
#[derive(Debug)]
pub struct EntityBody {
    span: Option<Span>,
    identity: Member,
    annotations: Vec<Annotation>,
    members: Vec<EntityMember>,
    groups: Vec<EntityGroup>,
}

impl EntityBody {
    pub closed spec fn spec_span(&self) -> Option<Span> {
        self.span
    }

    pub closed spec fn spec_identity(&self) -> Member {
        self.identity
    }

    pub closed spec fn spec_annotations(&self) -> Seq<Annotation> {
        self.annotations@
    }

    pub closed spec fn spec_members(&self) -> Seq<EntityMember> {
        self.members@
    }

    pub closed spec fn spec_groups(&self) -> Seq<EntityGroup> {
        self.groups@
    }

    /// The direct members, then the members of each group in turn.
    pub open spec fn spec_flat_members(&self) -> Seq<EntityMember> {
        self.spec_members() + flatten(self.spec_groups(), group_members_fn())
    }

    /// Complete when every direct member and every member of a group is.
    pub open spec fn spec_complete(&self) -> bool {
        all_entity_members_complete(self.spec_members()) && all_groups_complete(
            self.spec_groups(),
        )
    }

    pub open spec fn spec_referenced_types(&self) -> Seq<IdentifierReference> {
        flatten(self.spec_flat_members(), entity_member_types_fn())
    }

    pub open spec fn spec_referenced_annotations(&self) -> Seq<IdentifierReference> {
        flatten(self.spec_flat_members(), entity_member_annotations_fn())
    }

    pub fn new(identity: Member) -> (r: Self)
        ensures
            r.spec_identity() == identity,
            r.spec_annotations().len() == 0,
            r.spec_members().len() == 0,
            r.spec_groups().len() == 0,
            r.spec_span() is None,
    {
        EntityBody {
            span: None,
            identity,
            annotations: Vec::new(),
            members: Vec::new(),
            groups: Vec::new(),
        }
    }

    pub fn with_ts_span(self, ts_span: Span) -> (r: Self)
        ensures
            r.spec_span() == Some(ts_span),
            r.spec_identity() == self.spec_identity(),
            r.spec_annotations() == self.spec_annotations(),
            r.spec_members() == self.spec_members(),
            r.spec_groups() == self.spec_groups(),
    {
        EntityBody { span: Some(ts_span), ..self }
    }

    pub fn has_ts_span(&self) -> (r: bool)
        ensures
            r == self.spec_span() is Some,
    {
        self.span.is_some()
    }

    pub fn ts_span(&self) -> (r: Option<Span>)
        ensures
            r == self.spec_span(),
    {
        self.span
    }

    pub fn set_ts_span(&mut self, span: Span)
        ensures
            final(self).spec_span() == Some(span),
            final(self).spec_identity() == old(self).spec_identity(),
            final(self).spec_annotations() == old(self).spec_annotations(),
            final(self).spec_members() == old(self).spec_members(),
            final(self).spec_groups() == old(self).spec_groups(),
    {
        self.span = Some(span);
    }

    pub fn unset_ts_span(&mut self)
        ensures
            final(self).spec_span() is None,
            final(self).spec_identity() == old(self).spec_identity(),
            final(self).spec_annotations() == old(self).spec_annotations(),
            final(self).spec_members() == old(self).spec_members(),
            final(self).spec_groups() == old(self).spec_groups(),
    {
        self.span = None;
    }

    pub fn has_annotations(&self) -> (r: bool)
        ensures
            r == (self.spec_annotations().len() > 0),
    {
        self.annotations.len() > 0
    }

    pub fn annotations_len(&self) -> (r: usize)
        ensures
            r == self.spec_annotations().len(),
    {
        self.annotations.len()
    }

    pub fn annotations(&self) -> (r: &Vec<Annotation>)
        ensures
            r@ == self.spec_annotations(),
    {
        &self.annotations
    }

    pub fn add_to_annotations(&mut self, value: Annotation)
        ensures
            final(self).spec_annotations() == old(self).spec_annotations().push(value),
            final(self).spec_span() == old(self).spec_span(),
            final(self).spec_identity() == old(self).spec_identity(),
            final(self).spec_members() == old(self).spec_members(),
            final(self).spec_groups() == old(self).spec_groups(),
    {
        self.annotations.push(value);
    }

    pub fn extend_annotations(&mut self, extension: Vec<Annotation>)
        ensures
            final(self).spec_annotations() == old(self).spec_annotations() + extension@,
            final(self).spec_span() == old(self).spec_span(),
            final(self).spec_identity() == old(self).spec_identity(),
            final(self).spec_members() == old(self).spec_members(),
            final(self).spec_groups() == old(self).spec_groups(),
    {
        let mut extension = extension;
        self.annotations.append(&mut extension);
    }

    pub fn annotation_properties(&self) -> (r: Vec<&AnnotationProperty>)
        ensures
            r@.len() == flatten(self.spec_annotations(), properties_fn()).len(),
            forall|i: int|
                0 <= i < r@.len() ==> *r@[i] == #[trigger] flatten(
                    self.spec_annotations(),
                    properties_fn(),
                )[i],
    {
        annotation_properties(&self.annotations)
    }

    pub fn annotation_constraints(&self) -> (r: Vec<&Constraint>)
        ensures
            r@.len() == flatten(self.spec_annotations(), constraints_fn()).len(),
            forall|i: int|
                0 <= i < r@.len() ==> *r@[i] == #[trigger] flatten(
                    self.spec_annotations(),
                    constraints_fn(),
                )[i],
    {
        annotation_constraints(&self.annotations)
    }

    pub fn identity(&self) -> (r: &Member)
        ensures
            *r == self.spec_identity(),
    {
        &self.identity
    }

    pub fn set_identity(&mut self, identity: Member)
        ensures
            final(self).spec_identity() == identity,
            final(self).spec_span() == old(self).spec_span(),
            final(self).spec_annotations() == old(self).spec_annotations(),
            final(self).spec_members() == old(self).spec_members(),
            final(self).spec_groups() == old(self).spec_groups(),
    {
        self.identity = identity;
    }

    pub fn has_members(&self) -> (r: bool)
        ensures
            r == (self.spec_members().len() > 0),
    {
        self.members.len() > 0
    }

    pub fn members_len(&self) -> (r: usize)
        ensures
            r == self.spec_members().len(),
    {
        self.members.len()
    }

    pub fn members(&self) -> (r: &Vec<EntityMember>)
        ensures
            r@ == self.spec_members(),
    {
        &self.members
    }

    pub fn add_to_members(&mut self, value: EntityMember)
        ensures
            final(self).spec_members() == old(self).spec_members().push(value),
            final(self).spec_span() == old(self).spec_span(),
            final(self).spec_identity() == old(self).spec_identity(),
            final(self).spec_annotations() == old(self).spec_annotations(),
            final(self).spec_groups() == old(self).spec_groups(),
    {
        self.members.push(value);
    }

    pub fn extend_members(&mut self, extension: Vec<EntityMember>)
        ensures
            final(self).spec_members() == old(self).spec_members() + extension@,
            final(self).spec_span() == old(self).spec_span(),
            final(self).spec_identity() == old(self).spec_identity(),
            final(self).spec_annotations() == old(self).spec_annotations(),
            final(self).spec_groups() == old(self).spec_groups(),
    {
        let mut extension = extension;
        self.members.append(&mut extension);
    }

    pub fn has_groups(&self) -> (r: bool)
        ensures
            r == (self.spec_groups().len() > 0),
    {
        self.groups.len() > 0
    }

    pub fn groups_len(&self) -> (r: usize)
        ensures
            r == self.spec_groups().len(),
    {
        self.groups.len()
    }

    pub fn groups(&self) -> (r: &Vec<EntityGroup>)
        ensures
            r@ == self.spec_groups(),
    {
        &self.groups
    }

    pub fn add_to_groups(&mut self, value: EntityGroup)
        ensures
            final(self).spec_groups() == old(self).spec_groups().push(value),
            final(self).spec_span() == old(self).spec_span(),
            final(self).spec_identity() == old(self).spec_identity(),
            final(self).spec_annotations() == old(self).spec_annotations(),
            final(self).spec_members() == old(self).spec_members(),
    {
        self.groups.push(value);
    }

    pub fn extend_groups(&mut self, extension: Vec<EntityGroup>)
        ensures
            final(self).spec_groups() == old(self).spec_groups() + extension@,
            final(self).spec_span() == old(self).spec_span(),
            final(self).spec_identity() == old(self).spec_identity(),
            final(self).spec_annotations() == old(self).spec_annotations(),
            final(self).spec_members() == old(self).spec_members(),
    {
        let mut extension = extension;
        self.groups.append(&mut extension);
    }

    /// The annotations, to change in place.
    pub fn annotations_mut(&mut self) -> (r: &mut Vec<Annotation>)
        ensures
            r@ == old(self).spec_annotations(),
            final(self).spec_annotations() == final(r)@,
            final(self).spec_span() == old(self).spec_span(),
            final(self).spec_identity() == old(self).spec_identity(),
            final(self).spec_members() == old(self).spec_members(),
            final(self).spec_groups() == old(self).spec_groups(),
    {
        &mut self.annotations
    }

    /// The direct members, to change in place.
    pub fn members_mut(&mut self) -> (r: &mut Vec<EntityMember>)
        ensures
            r@ == old(self).spec_members(),
            final(self).spec_members() == final(r)@,
            final(self).spec_span() == old(self).spec_span(),
            final(self).spec_identity() == old(self).spec_identity(),
            final(self).spec_annotations() == old(self).spec_annotations(),
            final(self).spec_groups() == old(self).spec_groups(),
    {
        &mut self.members
    }

    /// The groups, to change in place.
    pub fn groups_mut(&mut self) -> (r: &mut Vec<EntityGroup>)
        ensures
            r@ == old(self).spec_groups(),
            final(self).spec_groups() == final(r)@,
            final(self).spec_span() == old(self).spec_span(),
            final(self).spec_identity() == old(self).spec_identity(),
            final(self).spec_annotations() == old(self).spec_annotations(),
            final(self).spec_members() == old(self).spec_members(),
    {
        &mut self.groups
    }

    /// The direct members, then the members of each group in turn.
    pub fn flat_members(&self) -> (r: Vec<&EntityMember>)
        ensures
            r@.len() == self.spec_flat_members().len(),
            forall|i: int| 0 <= i < r@.len() ==> *r@[i] == #[trigger] self.spec_flat_members()[i],
    {
        let mut r: Vec<&EntityMember> = Vec::new();
        let mut i: usize = 0;
        while i < self.members.len()
            invariant
                i <= self.spec_members().len(),
                self.members@ == self.spec_members(),
                r@.len() == i,
                forall|j: int| 0 <= j < i ==> *r@[j] == #[trigger] self.spec_members()[j],
            decreases self.spec_members().len() - i,
        {
            r.push(&self.members[i]);
            i = i + 1;
        }
        let ghost direct = self.spec_members();
        let ghost groups = self.spec_groups();
        let mut g: usize = 0;
        while g < self.groups.len()
            invariant
                g <= groups.len(),
                self.groups@ == groups,
                r@.len() == (direct + flatten(groups.subrange(0, g as int), group_members_fn())).len(),
                forall|j: int|
                    0 <= j < r@.len() ==> *r@[j] == #[trigger] (direct + flatten(
                        groups.subrange(0, g as int),
                        group_members_fn(),
                    ))[j],
            decreases groups.len() - g,
        {
            proof {
                lemma_flatten_prefix(groups, g as int, group_members_fn());
            }
            let group = &self.groups[g];
            let ghost before = r@;
            let mut k: usize = 0;
            while k < group.members.len()
                invariant
                    k <= group.spec_members().len(),
                    group.members@ == group.spec_members(),
                    r@.len() == before.len() + k,
                    forall|j: int| 0 <= j < before.len() ==> r@[j] == before[j],
                    forall|j: int|
                        0 <= j < k ==> *r@[before.len() + j] == #[trigger] group.spec_members()[j],
                decreases group.spec_members().len() - k,
            {
                r.push(&group.members[k]);
                k = k + 1;
            }
            proof {
                let next = direct + flatten(groups.subrange(0, g + 1), group_members_fn());
                let prev = direct + flatten(groups.subrange(0, g as int), group_members_fn());
                assert(next =~= prev + group.spec_members());
                assert forall|j: int| 0 <= j < r@.len() implies *r@[j] == #[trigger] next[j] by {
                    if j >= before.len() {
                        assert(*r@[before.len() + (j - before.len())] == group.spec_members()[j
                            - before.len()]);
                    }
                }
            }
            g = g + 1;
        }
        proof {
            lemma_flatten_all(groups, group_members_fn());
        }
        r
    }

    pub fn is_complete(&self) -> (r: bool)
        ensures
            r == self.spec_complete(),
    {
        if !entity_members_are_complete(&self.members) {
            return false;
        }
        let mut i: usize = 0;
        while i < self.groups.len()
            invariant
                i <= self.spec_groups().len(),
                self.groups@ == self.spec_groups(),
                forall|j: int| 0 <= j < i ==> (#[trigger] self.spec_groups()[j]).spec_complete(),
            decreases self.spec_groups().len() - i,
        {
            if !self.groups[i].is_complete() {
                return false;
            }
            i = i + 1;
        }
        true
    }

    /// The annotation properties that the members name, in the order of
    /// [`EntityBody::flat_members`].
    pub fn referenced_annotations(&self) -> (r: Vec<IdentifierReference>)
        ensures
            reference_set_of(r@, self.spec_referenced_annotations()),
    {
        distinct_references(self.referenced_annotations_in_order())
    }

    /// In order of appearance, repeats kept.
    pub(crate) fn referenced_annotations_in_order(&self) -> (r: Vec<IdentifierReference>)
        ensures
            r@ == self.spec_referenced_annotations(),
    {
        self.collect_from_flat_members(false)
    }

    /// The types that the members refer to, in the order of [`EntityBody::flat_members`].
    pub fn referenced_types(&self) -> (r: Vec<IdentifierReference>)
        ensures
            reference_set_of(r@, self.spec_referenced_types()),
    {
        distinct_references(self.referenced_types_in_order())
    }

    /// In order of appearance, repeats kept.
    pub(crate) fn referenced_types_in_order(&self) -> (r: Vec<IdentifierReference>)
        ensures
            r@ == self.spec_referenced_types(),
    {
        self.collect_from_flat_members(true)
    }

    fn collect_from_flat_members(&self, types: bool) -> (r: Vec<IdentifierReference>)
        ensures
            r@ == flatten(
                self.spec_flat_members(),
                if types {
                    entity_member_types_fn()
                } else {
                    entity_member_annotations_fn()
                },
            ),
    {
        let ghost f = if types {
            entity_member_types_fn()
        } else {
            entity_member_annotations_fn()
        };
        let mut names: Vec<IdentifierReference> = Vec::new();
        collect_from_entity_members(&self.members, types, &mut names);
        let ghost groups = self.spec_groups();
        let mut g: usize = 0;
        while g < self.groups.len()
            invariant
                g <= groups.len(),
                self.groups@ == groups,
                f == (if types {
                    entity_member_types_fn()
                } else {
                    entity_member_annotations_fn()
                }),
                names@ == flatten(
                    self.spec_members() + flatten(groups.subrange(0, g as int), group_members_fn()),
                    f,
                ),
            decreases groups.len() - g,
        {
            proof {
                lemma_flatten_prefix(groups, g as int, group_members_fn());
                lemma_flatten_concat(
                    self.spec_members() + flatten(groups.subrange(0, g as int), group_members_fn()),
                    groups[g as int].spec_members(),
                    f,
                );
                assert(self.spec_members() + flatten(groups.subrange(0, g + 1), group_members_fn())
                    =~= self.spec_members() + flatten(groups.subrange(0, g as int), group_members_fn())
                    + groups[g as int].spec_members());
            }
            collect_from_entity_members(&self.groups[g].members, types, &mut names);
            g = g + 1;
        }
        proof {
            lemma_flatten_all(groups, group_members_fn());
        }
        names
    }
}

/// Corresponds to the grammar rule `entity_def`.
#[derive(Debug)]
pub struct EntityDef {
    span: Option<Span>,
    name: Identifier,
    body: Option<EntityBody>,
}

impl EntityDef {
    pub closed spec fn spec_span(&self) -> Option<Span> {
        self.span
    }

    pub closed spec fn spec_name(&self) -> Identifier {
        self.name
    }

    pub closed spec fn spec_body(&self) -> Option<EntityBody> {
        self.body
    }

    /// Complete when it has a body; what the body holds does not matter here.
    pub open spec fn spec_complete(&self) -> bool {
        self.spec_body() is Some
    }

    pub open spec fn spec_referenced_types(&self) -> Seq<IdentifierReference> {
        match self.spec_body() {
            Some(b) => b.spec_referenced_types(),
            None => Seq::empty(),
        }
    }

    pub open spec fn spec_referenced_annotations(&self) -> Seq<IdentifierReference> {
        match self.spec_body() {
            Some(b) => b.spec_referenced_annotations(),
            None => Seq::empty(),
        }
    }

    pub fn new(name: Identifier) -> (r: Self)
        ensures
            r.spec_name() == name,
            r.spec_body() is None,
            r.spec_span() is None,
    {
        EntityDef { span: None, name, body: None }
    }

    pub fn with_ts_span(self, ts_span: Span) -> (r: Self)
        ensures
            r.spec_span() == Some(ts_span),
            r.spec_name() == self.spec_name(),
            r.spec_body() == self.spec_body(),
    {
        EntityDef { span: Some(ts_span), ..self }
    }

    pub fn with_body(self, body: EntityBody) -> (r: Self)
        ensures
            r.spec_body() == Some(body),
            r.spec_name() == self.spec_name(),
            r.spec_span() == self.spec_span(),
    {
        EntityDef { body: Some(body), ..self }
    }

    pub fn has_ts_span(&self) -> (r: bool)
        ensures
            r == self.spec_span() is Some,
    {
        self.span.is_some()
    }

    pub fn ts_span(&self) -> (r: Option<Span>)
        ensures
            r == self.spec_span(),
    {
        self.span
    }

    pub fn set_ts_span(&mut self, span: Span)
        ensures
            final(self).spec_span() == Some(span),
            final(self).spec_name() == old(self).spec_name(),
            final(self).spec_body() == old(self).spec_body(),
    {
        self.span = Some(span);
    }

    pub fn unset_ts_span(&mut self)
        ensures
            final(self).spec_span() is None,
            final(self).spec_name() == old(self).spec_name(),
            final(self).spec_body() == old(self).spec_body(),
    {
        self.span = None;
    }

    pub fn name(&self) -> (r: &Identifier)
        ensures
            *r == self.spec_name(),
    {
        &self.name
    }

    pub fn set_name(&mut self, name: Identifier)
        ensures
            final(self).spec_name() == name,
            final(self).spec_span() == old(self).spec_span(),
            final(self).spec_body() == old(self).spec_body(),
    {
        self.name = name;
    }

    pub fn has_body(&self) -> (r: bool)
        ensures
            r == self.spec_body() is Some,
    {
        self.body.is_some()
    }

    pub fn body(&self) -> (r: Option<&EntityBody>)
        ensures
            r matches Some(b) ==> self.spec_body() == Some(*b),
            r is None <==> self.spec_body() is None,
    {
        self.body.as_ref()
    }

    pub fn set_body(&mut self, body: EntityBody)
        ensures
            final(self).spec_body() == Some(body),
            final(self).spec_name() == old(self).spec_name(),
            final(self).spec_span() == old(self).spec_span(),
    {
        self.body = Some(body);
    }

    pub fn unset_body(&mut self)
        ensures
            final(self).spec_body() is None,
            final(self).spec_name() == old(self).spec_name(),
            final(self).spec_span() == old(self).spec_span(),
    {
        self.body = None;
    }

    pub fn is_complete(&self) -> (r: bool)
        ensures
            r == self.spec_complete(),
    {
        self.body.is_some()
    }

    pub fn referenced_types(&self) -> (r: Vec<IdentifierReference>)
        ensures
            reference_set_of(r@, self.spec_referenced_types()),
    {
        distinct_references(self.referenced_types_in_order())
    }

    /// In order of appearance, repeats kept.
    pub(crate) fn referenced_types_in_order(&self) -> (r: Vec<IdentifierReference>)
        ensures
            r@ == self.spec_referenced_types(),
    {
        match &self.body {
            Some(b) => b.referenced_types_in_order(),
            None => Vec::new(),
        }
    }

    pub fn referenced_annotations(&self) -> (r: Vec<IdentifierReference>)
        ensures
            reference_set_of(r@, self.spec_referenced_annotations()),
    {
        distinct_references(self.referenced_annotations_in_order())
    }

    /// In order of appearance, repeats kept.
    pub(crate) fn referenced_annotations_in_order(&self) -> (r: Vec<IdentifierReference>)
        ensures
            r@ == self.spec_referenced_annotations(),
    {
        match &self.body {
            Some(b) => b.referenced_annotations_in_order(),
            None => Vec::new(),
        }
    }
}

impl HasAnnotations for EntityBody {
    open spec fn annotations_view(&self) -> Seq<Annotation> {
        self.spec_annotations()
    }

    fn annotations(&self) -> (r: &Vec<Annotation>) {
        &self.annotations
    }
}

impl HasAnnotations for EntityGroup {
    open spec fn annotations_view(&self) -> Seq<Annotation> {
        self.spec_annotations()
    }

    fn annotations(&self) -> (r: &Vec<Annotation>) {
        &self.annotations
    }
}

} // verus!
