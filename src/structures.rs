//! Structure definitions: named records of members, alone or in groups.
use crate::annotations::{Annotation, HasAnnotations};
use crate::concat::{flatten, lemma_flatten_all, lemma_flatten_concat, lemma_flatten_prefix};
use crate::identifiers::{
    distinct_references, reference_set_of, Identifier, IdentifierReference, Span,
};
use crate::members::{
    all_members_complete, collect_member_annotations, collect_member_types,
    member_annotations_fn, member_types_fn, members_are_complete, Member, MemberGroup,
};
use vstd::prelude::*;

verus! {

pub open spec fn all_member_groups_complete(s: Seq<MemberGroup>) -> bool {
    forall|i: int| 0 <= i < s.len() ==> (#[trigger] s[i]).spec_complete()
}

pub open spec fn member_group_members_fn() -> spec_fn(MemberGroup) -> Seq<Member> {
    |g: MemberGroup| g.spec_members()
}

/// Corresponds to the grammar rule `structure_body`.
#[derive(Debug)]
pub struct StructureBody {
    span: Option<Span>,
    annotations: Vec<Annotation>,
    members: Vec<Member>,
    groups: Vec<MemberGroup>,
}

impl StructureBody {
    pub closed spec fn spec_span(&self) -> Option<Span> {
        self.span
    }

    pub closed spec fn spec_annotations(&self) -> Seq<Annotation> {
        self.annotations@
    }

    pub closed spec fn spec_members(&self) -> Seq<Member> {
        self.members@
    }

    pub closed spec fn spec_groups(&self) -> Seq<MemberGroup> {
        self.groups@
    }

    /// The direct members, then the members of each group in turn.
    pub open spec fn spec_flat_members(&self) -> Seq<Member> {
        self.spec_members() + flatten(self.spec_groups(), member_group_members_fn())
    }

    /// Complete when every direct member and every member of a group is.
    pub open spec fn spec_complete(&self) -> bool {
        all_members_complete(self.spec_members()) && all_member_groups_complete(
            self.spec_groups(),
        )
    }

    pub open spec fn spec_referenced_types(&self) -> Seq<IdentifierReference> {
        flatten(self.spec_flat_members(), member_types_fn())
    }

    pub open spec fn spec_referenced_annotations(&self) -> Seq<IdentifierReference> {
        flatten(self.spec_flat_members(), member_annotations_fn())
    }

    pub fn new() -> (r: Self)
        ensures
            r.spec_annotations().len() == 0,
            r.spec_members().len() == 0,
            r.spec_groups().len() == 0,
            r.spec_span() is None,
    {
        StructureBody {
            span: None,
            annotations: Vec::new(),
            members: Vec::new(),
            groups: Vec::new(),
        }
    }

    pub fn with_ts_span(self, ts_span: Span) -> (r: Self)
        ensures
            r.spec_span() == Some(ts_span),
            r.spec_annotations() == self.spec_annotations(),
            r.spec_members() == self.spec_members(),
            r.spec_groups() == self.spec_groups(),
    {
        StructureBody { span: Some(ts_span), ..self }
    }

    pub fn ts_span(&self) -> (r: Option<Span>)
        ensures
            r == self.spec_span(),
    {
        self.span
    }

    pub fn annotations(&self) -> (r: &Vec<Annotation>)
        ensures
            r@ == self.spec_annotations(),
    {
        &self.annotations
    }

    pub fn add_to_annotations(&mut self, value: Annotation)
        ensures
            final(self).spec_annotations() == old(self).spec_annotations().push(value),
            final(self).spec_span() == old(self).spec_span(),
            final(self).spec_members() == old(self).spec_members(),
            final(self).spec_groups() == old(self).spec_groups(),
    {
        self.annotations.push(value);
    }

    pub fn members(&self) -> (r: &Vec<Member>)
        ensures
            r@ == self.spec_members(),
    {
        &self.members
    }

    pub fn add_to_members(&mut self, value: Member)
        ensures
            final(self).spec_members() == old(self).spec_members().push(value),
            final(self).spec_span() == old(self).spec_span(),
            final(self).spec_annotations() == old(self).spec_annotations(),
            final(self).spec_groups() == old(self).spec_groups(),
    {
        self.members.push(value);
    }

    pub fn groups(&self) -> (r: &Vec<MemberGroup>)
        ensures
            r@ == self.spec_groups(),
    {
        &self.groups
    }

    pub fn add_to_groups(&mut self, value: MemberGroup)
        ensures
            final(self).spec_groups() == old(self).spec_groups().push(value),
            final(self).spec_span() == old(self).spec_span(),
            final(self).spec_annotations() == old(self).spec_annotations(),
            final(self).spec_members() == old(self).spec_members(),
    {
        self.groups.push(value);
    }

    /// The direct members, then the members of each group in turn.
    pub fn flat_members(&self) -> (r: Vec<&Member>)
        ensures
            r@.len() == self.spec_flat_members().len(),
            forall|i: int| 0 <= i < r@.len() ==> *r@[i] == #[trigger] self.spec_flat_members()[i],
    {
        let mut r: Vec<&Member> = Vec::new();
        let mut i: usize = 0;
        while i < self.members.len()
            invariant
                i <= self.spec_members().len(),
                self.members@ == self.spec_members(),
                r@.len() == i,
                forall|j: int| 0 <= j < i ==> *r@[j] == #[trigger] self.spec_members()[j],
            decreases self.spec_members().len() - i,
        {
            r.push(&self.members[i]);
            i = i + 1;
        }
        let ghost direct = self.spec_members();
        let ghost groups = self.spec_groups();
        let mut g: usize = 0;
        while g < self.groups.len()
            invariant
                g <= groups.len(),
                self.groups@ == groups,
                r@.len() == (direct + flatten(
                    groups.subrange(0, g as int),
                    member_group_members_fn(),
                )).len(),
                forall|j: int|
                    0 <= j < r@.len() ==> *r@[j] == #[trigger] (direct + flatten(
                        groups.subrange(0, g as int),
                        member_group_members_fn(),
                    ))[j],
            decreases groups.len() - g,
        {
            proof {
                lemma_flatten_prefix(groups, g as int, member_group_members_fn());
            }
            let group = self.groups[g].members();
            let ghost before = r@;
            let mut k: usize = 0;
            while k < group.len()
                invariant
                    k <= group@.len(),
                    group@ == groups[g as int].spec_members(),
                    r@.len() == before.len() + k,
                    forall|j: int| 0 <= j < before.len() ==> r@[j] == before[j],
                    forall|j: int| 0 <= j < k ==> *r@[before.len() + j] == #[trigger] group@[j],
                decreases group@.len() - k,
            {
                r.push(&group[k]);
                k = k + 1;
            }
            proof {
                let next = direct + flatten(groups.subrange(0, g + 1), member_group_members_fn());
                let prev = direct + flatten(groups.subrange(0, g as int), member_group_members_fn());
                assert(next =~= prev + group@);
                assert forall|j: int| 0 <= j < r@.len() implies *r@[j] == #[trigger] next[j] by {
                    if j >= before.len() {
                        assert(*r@[before.len() + (j - before.len())] == group@[j
                            - before.len()]);
                    }
                }
            }
            g = g + 1;
        }
        proof {
            lemma_flatten_all(groups, member_group_members_fn());
        }
        r
    }

    pub fn is_complete(&self) -> (r: bool)
        ensures
            r == self.spec_complete(),
    {
        if !members_are_complete(&self.members) {
            return false;
        }
        let mut i: usize = 0;
        while i < self.groups.len()
            invariant
                i <= self.spec_groups().len(),
                self.groups@ == self.spec_groups(),
                forall|j: int| 0 <= j < i ==> (#[trigger] self.spec_groups()[j]).spec_complete(),
            decreases self.spec_groups().len() - i,
        {
            if !self.groups[i].is_complete() {
                return false;
            }
            i = i + 1;
        }
        true
    }

    pub fn referenced_types(&self) -> (r: Vec<IdentifierReference>)
        ensures
            reference_set_of(r@, self.spec_referenced_types()),
    {
        distinct_references(self.referenced_types_in_order())
    }

    /// In order of appearance, repeats kept.
    pub(crate) fn referenced_types_in_order(&self) -> (r: Vec<IdentifierReference>)
        ensures
            r@ == self.spec_referenced_types(),
    {
        self.collect_from_flat_members(true)
    }

    pub fn referenced_annotations(&self) -> (r: Vec<IdentifierReference>)
        ensures
            reference_set_of(r@, self.spec_referenced_annotations()),
    {
        distinct_references(self.referenced_annotations_in_order())
    }

    /// In order of appearance, repeats kept.
    pub(crate) fn referenced_annotations_in_order(&self) -> (r: Vec<IdentifierReference>)
        ensures
            r@ == self.spec_referenced_annotations(),
    {
        self.collect_from_flat_members(false)
    }

    fn collect_from_flat_members(&self, types: bool) -> (r: Vec<IdentifierReference>)
        ensures
            r@ == flatten(
                self.spec_flat_members(),
                if types {
                    member_types_fn()
                } else {
                    member_annotations_fn()
                },
            ),
    {
        let ghost f = if types {
            member_types_fn()
        } else {
            member_annotations_fn()
        };
        let mut names: Vec<IdentifierReference> = Vec::new();
        if types {
            collect_member_types(&self.members, &mut names);
        } else {
            collect_member_annotations(&self.members, &mut names);
        }
        let ghost groups = self.spec_groups();
        let mut g: usize = 0;
        while g < self.groups.len()
            invariant
                g <= groups.len(),
                self.groups@ == groups,
                f == (if types {
                    member_types_fn()
                } else {
                    member_annotations_fn()
                }),
                names@ == flatten(
                    self.spec_members() + flatten(
                        groups.subrange(0, g as int),
                        member_group_members_fn(),
                    ),
                    f,
                ),
            decreases groups.len() - g,
        {
            proof {
                lemma_flatten_prefix(groups, g as int, member_group_members_fn());
                lemma_flatten_concat(
                    self.spec_members() + flatten(
                        groups.subrange(0, g as int),
                        member_group_members_fn(),
                    ),
                    groups[g as int].spec_members(),
                    f,
                );
                assert(self.spec_members() + flatten(
                    groups.subrange(0, g + 1),
                    member_group_members_fn(),
                ) =~= self.spec_members() + flatten(
                    groups.subrange(0, g as int),
                    member_group_members_fn(),
                ) + groups[g as int].spec_members());
            }
            if types {
                collect_member_types(self.groups[g].members(), &mut names);
            } else {
                collect_member_annotations(self.groups[g].members(), &mut names);
            }
            g = g + 1;
        }
        proof {
            lemma_flatten_all(groups, member_group_members_fn());
        }
        names
    }
}

/// Corresponds to the grammar rule `structure_def`.
#[derive(Debug)]
pub struct StructureDef {
    span: Option<Span>,
    name: Identifier,
    body: Option<StructureBody>,
}

impl StructureDef {
    pub closed spec fn spec_span(&self) -> Option<Span> {
        self.span
    }

    pub closed spec fn spec_name(&self) -> Identifier {
        self.name
    }

    pub closed spec fn spec_body(&self) -> Option<StructureBody> {
        self.body
    }

    /// Complete when it has a body; what the body holds does not matter here.
    pub open spec fn spec_complete(&self) -> bool {
        self.spec_body() is Some
    }

    pub open spec fn spec_referenced_types(&self) -> Seq<IdentifierReference> {
        match self.spec_body() {
            Some(b) => b.spec_referenced_types(),
            None => Seq::empty(),
        }
    }

    pub open spec fn spec_referenced_annotations(&self) -> Seq<IdentifierReference> {
        match self.spec_body() {
            Some(b) => b.spec_referenced_annotations(),
            None => Seq::empty(),
        }
    }

    pub fn new(name: Identifier) -> (r: Self)
        ensures
            r.spec_name() == name,
            r.spec_body() is None,
            r.spec_span() is None,
    {
        StructureDef { span: None, name, body: None }
    }

    pub fn with_ts_span(self, ts_span: Span) -> (r: Self)
        ensures
            r.spec_span() == Some(ts_span),
            r.spec_name() == self.spec_name(),
            r.spec_body() == self.spec_body(),
    {
        StructureDef { span: Some(ts_span), ..self }
    }

    pub fn with_body(self, body: StructureBody) -> (r: Self)
        ensures
            r.spec_body() == Some(body),
            r.spec_name() == self.spec_name(),
            r.spec_span() == self.spec_span(),
    {
        StructureDef { body: Some(body), ..self }
    }

    pub fn ts_span(&self) -> (r: Option<Span>)
        ensures
            r == self.spec_span(),
    {
        self.span
    }

    pub fn name(&self) -> (r: &Identifier)
        ensures
            *r == self.spec_name(),
    {
        &self.name
    }

    pub fn body(&self) -> (r: Option<&StructureBody>)
        ensures
            r matches Some(b) ==> self.spec_body() == Some(*b),
            r is None <==> self.spec_body() is None,
    {
        self.body.as_ref()
    }

    pub fn set_body(&mut self, body: StructureBody)
        ensures
            final(self).spec_body() == Some(body),
            final(self).spec_name() == old(self).spec_name(),
            final(self).spec_span() == old(self).spec_span(),
    {
        self.body = Some(body);
    }

    pub fn is_complete(&self) -> (r: bool)
        ensures
            r == self.spec_complete(),
    {
        self.body.is_some()
    }

    pub fn referenced_types(&self) -> (r: Vec<IdentifierReference>)
        ensures
            reference_set_of(r@, self.spec_referenced_types()),
    {
        distinct_references(self.referenced_types_in_order())
    }

    /// In order of appearance, repeats kept.
    pub(crate) fn referenced_types_in_order(&self) -> (r: Vec<IdentifierReference>)
        ensures
            r@ == self.spec_referenced_types(),
    {
        match &self.body {
            Some(b) => b.referenced_types_in_order(),
            None => Vec::new(),
        }
    }

    pub fn referenced_annotations(&self) -> (r: Vec<IdentifierReference>)
        ensures
            reference_set_of(r@, self.spec_referenced_annotations()),
    {
        distinct_references(self.referenced_annotations_in_order())
    }

    /// In order of appearance, repeats kept.
    pub(crate) fn referenced_annotations_in_order(&self) -> (r: Vec<IdentifierReference>)
        ensures
            r@ == self.spec_referenced_annotations(),
    {
        match &self.body {
            Some(b) => b.referenced_annotations_in_order(),
            None => Vec::new(),
        }
    }
}

impl HasAnnotations for StructureBody {
    open spec fn annotations_view(&self) -> Seq<Annotation> {
        self.spec_annotations()
    }

    fn annotations(&self) -> (r: &Vec<Annotation>) {
        &self.annotations
    }
}

} // verus!
