//! The correctness walk: every node of a module is checked against the static rules, and
//! each problem becomes a diagnostic. The walk never stops early, and it reads the store
//! without changing it or the module.
use crate::annotations::{annotations_diagnostics, validate_annotations, AnnotationOnlyBody};
use crate::concat::{flatten, lemma_flatten_all, lemma_flatten_prefix};
use crate::definitions::Definition;
use crate::diagnostics::{case_diagnostics, validate_case, Diagnostic, FileId};
use crate::entities::{EntityBody, EntityGroup, EntityMember};
use crate::identifiers::{IdentifierCaseConvention, IdentifierReference};
use crate::members::{Member, MemberGroup};
use crate::modules::{
    resolve, spec_resolve, Import, ImportStatement, Module, ModuleBody, ModuleStore,
};
use crate::structures::StructureBody;
use vstd::prelude::*;

verus! {

/// A reference that resolves to nothing is reported against the module being validated.
pub open spec fn reference_diagnostics(
    reference: IdentifierReference,
    top: Module,
    store: ModuleStore,
) -> Seq<Diagnostic> {
    if spec_resolve(reference, top, store) is Some {
        Seq::empty()
    } else {
        seq![
            Diagnostic::TypeDefinitionNotFound {
                file_id: top.spec_report_file_id(),
                span: reference.spec_span(),
                name: reference,
            },
        ]
    }
}

pub open spec fn optional_body_diagnostics(
    body: Option<AnnotationOnlyBody>,
    file_id: FileId,
    check_constraints: bool,
) -> Seq<Diagnostic> {
    match body {
        Some(b) => annotations_diagnostics(b.spec_annotations(), file_id, check_constraints),
        None => Seq::empty(),
    }
}

/// A member: its name, the type it refers to, and its annotations.
pub open spec fn member_diagnostics(
    m: Member,
    top: Module,
    store: ModuleStore,
    check_constraints: bool,
) -> Seq<Diagnostic> {
    case_diagnostics(m.spec_name(), IdentifierCaseConvention::Member, top.spec_report_file_id())
        + match m.spec_target_type() {
        Some(t) => reference_diagnostics(t, top, store),
        None => Seq::empty(),
    } + optional_body_diagnostics(m.spec_body(), top.spec_report_file_id(), check_constraints)
}

pub open spec fn member_fn(top: Module, store: ModuleStore, check_constraints: bool) -> spec_fn(
    Member,
) -> Seq<Diagnostic> {
    |m: Member| member_diagnostics(m, top, store, check_constraints)
}

pub open spec fn entity_member_fn(
    top: Module,
    store: ModuleStore,
    check_constraints: bool,
) -> spec_fn(EntityMember) -> Seq<Diagnostic> {
    |m: EntityMember| member_diagnostics(m.spec_member(), top, store, check_constraints)
}

pub open spec fn entity_group_diagnostics(
    g: EntityGroup,
    top: Module,
    store: ModuleStore,
    check_constraints: bool,
) -> Seq<Diagnostic> {
    annotations_diagnostics(g.spec_annotations(), top.spec_report_file_id(), check_constraints)
        + flatten(g.spec_members(), entity_member_fn(top, store, check_constraints))
}

pub open spec fn entity_group_fn(
    top: Module,
    store: ModuleStore,
    check_constraints: bool,
) -> spec_fn(EntityGroup) -> Seq<Diagnostic> {
    |g: EntityGroup| entity_group_diagnostics(g, top, store, check_constraints)
}

pub open spec fn entity_body_diagnostics(
    b: EntityBody,
    top: Module,
    store: ModuleStore,
    check_constraints: bool,
) -> Seq<Diagnostic> {
    annotations_diagnostics(b.spec_annotations(), top.spec_report_file_id(), check_constraints)
        + member_diagnostics(b.spec_identity(), top, store, check_constraints) + flatten(
        b.spec_members(),
        entity_member_fn(top, store, check_constraints),
    ) + flatten(b.spec_groups(), entity_group_fn(top, store, check_constraints))
}

pub open spec fn member_group_diagnostics(
    g: MemberGroup,
    top: Module,
    store: ModuleStore,
    check_constraints: bool,
) -> Seq<Diagnostic> {
    annotations_diagnostics(g.spec_annotations(), top.spec_report_file_id(), check_constraints)
        + flatten(g.spec_members(), member_fn(top, store, check_constraints))
}

pub open spec fn member_group_fn(
    top: Module,
    store: ModuleStore,
    check_constraints: bool,
) -> spec_fn(MemberGroup) -> Seq<Diagnostic> {
    |g: MemberGroup| member_group_diagnostics(g, top, store, check_constraints)
}

pub open spec fn structure_body_diagnostics(
    b: StructureBody,
    top: Module,
    store: ModuleStore,
    check_constraints: bool,
) -> Seq<Diagnostic> {
    annotations_diagnostics(b.spec_annotations(), top.spec_report_file_id(), check_constraints)
        + flatten(b.spec_members(), member_fn(top, store, check_constraints)) + flatten(
        b.spec_groups(),
        member_group_fn(top, store, check_constraints),
    )
}

pub open spec fn variant_name_fn(file_id: FileId) -> spec_fn(crate::identifiers::Identifier) -> Seq<
    Diagnostic,
> {
    |v: crate::identifiers::Identifier|
        case_diagnostics(v, IdentifierCaseConvention::ValueVariant, file_id)
}

pub open spec fn reference_fn(top: Module, store: ModuleStore) -> spec_fn(
    IdentifierReference,
) -> Seq<Diagnostic> {
    |r: IdentifierReference| reference_diagnostics(r, top, store)
}

/// A definition: its name, then its body, each nested part in turn.
pub open spec fn definition_diagnostics(
    d: Definition,
    top: Module,
    store: ModuleStore,
    check_constraints: bool,
) -> Seq<Diagnostic> {
    let file_id = top.spec_report_file_id();
    match d {
        Definition::Datatype(v) => case_diagnostics(
            v.spec_name(),
            IdentifierCaseConvention::TypeDefinition,
            file_id,
        ) + reference_diagnostics(v.spec_base_type(), top, store) + optional_body_diagnostics(
            v.spec_body(),
            file_id,
            check_constraints,
        ),
        Definition::Entity(v) => case_diagnostics(
            v.spec_name(),
            IdentifierCaseConvention::TypeDefinition,
            file_id,
        ) + match v.spec_body() {
            Some(b) => entity_body_diagnostics(b, top, store, check_constraints),
            None => Seq::empty(),
        },
        Definition::Enum(v) => case_diagnostics(
            v.spec_name(),
            IdentifierCaseConvention::TypeDefinition,
            file_id,
        ) + match v.spec_body() {
            Some(b) => annotations_diagnostics(b.spec_annotations(), file_id, check_constraints)
                + flatten(b.spec_variants(), variant_name_fn(file_id)),
            None => Seq::empty(),
        },
        Definition::Event(v) => case_diagnostics(
            v.spec_name(),
            IdentifierCaseConvention::TypeDefinition,
            file_id,
        ) + reference_diagnostics(v.spec_event_source(), top, store) + match v.spec_body() {
            Some(b) => structure_body_diagnostics(b, top, store, check_constraints),
            None => Seq::empty(),
        },
        Definition::Property(v) => member_diagnostics(
            v.spec_member(),
            top,
            store,
            check_constraints,
        ),
        Definition::Rdf(v) => case_diagnostics(
            v.spec_name(),
            IdentifierCaseConvention::RdfDefinition,
            file_id,
        ) + annotations_diagnostics(v.spec_body().spec_annotations(), file_id, check_constraints),
        Definition::Structure(v) => case_diagnostics(
            v.spec_name(),
            IdentifierCaseConvention::TypeDefinition,
            file_id,
        ) + match v.spec_body() {
            Some(b) => structure_body_diagnostics(b, top, store, check_constraints),
            None => Seq::empty(),
        },
        Definition::TypeClass(v) => case_diagnostics(
            v.spec_name(),
            IdentifierCaseConvention::TypeDefinition,
            file_id,
        ) + optional_body_diagnostics(v.spec_body(), file_id, check_constraints),
        Definition::Union(v) => case_diagnostics(
            v.spec_name(),
            IdentifierCaseConvention::TypeDefinition,
            file_id,
        ) + match v.spec_body() {
            Some(b) => annotations_diagnostics(b.spec_annotations(), file_id, check_constraints)
                + flatten(b.spec_variants(), reference_fn(top, store)),
            None => Seq::empty(),
        },
    }
}

pub open spec fn definition_fn(
    top: Module,
    store: ModuleStore,
    check_constraints: bool,
) -> spec_fn(Definition) -> Seq<Diagnostic> {
    |d: Definition| definition_diagnostics(d, top, store, check_constraints)
}

/// An import. A module import names a module of the store, and where it gives a version
/// URI, the module has that version URI; a member import names a module of the store
/// that defines the member. Problems are reported at the import.
pub open spec fn import_diagnostics(i: Import, top: Module, store: ModuleStore) -> Seq<
    Diagnostic,
> {
    let file_id = top.spec_report_file_id();
    match i {
        Import::Module(mi) => case_diagnostics(
            mi.spec_name(),
            IdentifierCaseConvention::Module,
            file_id,
        ) + match store.spec_get(mi.spec_name().spec_value()) {
            None => seq![
                Diagnostic::ImportedModuleNotFound {
                    file_id,
                    span: mi.spec_span(),
                    name: mi.spec_name(),
                },
            ],
            Some(actual) => match (mi.spec_version_uri(), actual.spec_version_uri()) {
                (None, _) => Seq::empty(),
                (Some(expected), Some(found)) => if expected.spec_value() == found.spec_value() {
                    Seq::empty()
                } else {
                    seq![
                        Diagnostic::ModuleVersionMismatch {
                            file_id,
                            span: mi.spec_span(),
                            expected: expected.spec_string(),
                            actual: found.spec_string(),
                        },
                    ]
                },
                (Some(expected), None) => seq![
                    Diagnostic::ModuleVersionNotFound {
                        file_id,
                        span: mi.spec_span(),
                        expected: expected.spec_string(),
                        name: mi.spec_name(),
                    },
                ],
            },
        },
        Import::Member(q) => case_diagnostics(
            q.spec_module(),
            IdentifierCaseConvention::Module,
            file_id,
        ) + match store.spec_get(q.spec_module().spec_value()) {
            None => seq![
                Diagnostic::ImportedModuleNotFound {
                    file_id,
                    span: q.spec_span(),
                    name: q.spec_module(),
                },
            ],
            Some(actual) => if actual.spec_resolve_local(q.spec_member().spec_value()) is Some {
                Seq::empty()
            } else {
                seq![Diagnostic::DefinitionNotFound { file_id, span: q.spec_span(), name: q }]
            },
        },
    }
}

pub open spec fn import_fn(top: Module, store: ModuleStore) -> spec_fn(Import) -> Seq<
    Diagnostic,
> {
    |i: Import| import_diagnostics(i, top, store)
}

pub open spec fn statement_diagnostics(s: ImportStatement, top: Module, store: ModuleStore) -> Seq<
    Diagnostic,
> {
    flatten(s.spec_imports(), import_fn(top, store))
}

pub open spec fn statement_fn(top: Module, store: ModuleStore) -> spec_fn(ImportStatement) -> Seq<
    Diagnostic,
> {
    |s: ImportStatement| statement_diagnostics(s, top, store)
}

/// A body: every import statement, then every annotation, then every definition.
pub open spec fn body_diagnostics(
    b: ModuleBody,
    top: Module,
    store: ModuleStore,
    check_constraints: bool,
) -> Seq<Diagnostic> {
    flatten(b.spec_imports(), statement_fn(top, store)) + annotations_diagnostics(
        b.spec_annotations(),
        top.spec_report_file_id(),
        check_constraints,
    ) + flatten(b.spec_definitions(), definition_fn(top, store, check_constraints))
}

pub open spec fn version_info_diagnostics(m: Module) -> Seq<Diagnostic> {
    match m.spec_version_info() {
        Some(v) => if v.spec_value().len() == 0 {
            seq![
                Diagnostic::ModuleVersionInfoEmpty {
                    file_id: m.spec_report_file_id(),
                    span: v.spec_span(),
                },
            ]
        } else {
            Seq::empty()
        },
        None => Seq::empty(),
    }
}

pub open spec fn incomplete_diagnostics(m: Module) -> Seq<Diagnostic> {
    if m.spec_incomplete() {
        seq![
            Diagnostic::ModuleIsIncomplete {
                file_id: m.spec_report_file_id(),
                span: m.spec_span(),
                name: m.spec_name(),
            },
        ]
    } else {
        Seq::empty()
    }
}

/// Everything that validating `m` against `store` reports, in order: nothing for a
/// library module; else the module name's convention, an empty version string, the body,
/// and last whether the module is incomplete.
pub open spec fn module_diagnostics(m: Module, store: ModuleStore, check_constraints: bool) -> Seq<
    Diagnostic,
> {
    if m.spec_is_library() {
        Seq::empty()
    } else {
        case_diagnostics(m.spec_name(), IdentifierCaseConvention::Module, m.spec_report_file_id())
            + version_info_diagnostics(m) + body_diagnostics(
            m.spec_body(),
            m,
            store,
            check_constraints,
        ) + incomplete_diagnostics(m)
    }
}

fn validate_reference(
    reference: &IdentifierReference,
    top: &Module,
    store: &ModuleStore,
    out: &mut Vec<Diagnostic>,
)
    ensures
        final(out)@ == old(out)@ + reference_diagnostics(*reference, *top, *store),
{
    if resolve(reference, top, store).is_none() {
        out.push(
            Diagnostic::TypeDefinitionNotFound {
                file_id: top.report_file_id(),
                span: reference.ts_span(),
                name: reference.duplicate(),
            },
        );
    }
    assert(out@ =~= old(out)@ + reference_diagnostics(*reference, *top, *store));
}

fn validate_optional_body(
    body: Option<&AnnotationOnlyBody>,
    file_id: FileId,
    check_constraints: bool,
    out: &mut Vec<Diagnostic>,
)
    ensures
        final(out)@ == old(out)@ + optional_body_diagnostics(
            match body {
                Some(b) => Some(*b),
                None => None,
            },
            file_id,
            check_constraints,
        ),
{
    match body {
        Some(b) => b.validate(file_id, check_constraints, out),
        None => {
            assert(out@ =~= old(out)@ + Seq::<Diagnostic>::empty());
        },
    }
}

fn validate_member(
    m: &Member,
    top: &Module,
    store: &ModuleStore,
    check_constraints: bool,
    out: &mut Vec<Diagnostic>,
)
    ensures
        final(out)@ == old(out)@ + member_diagnostics(*m, *top, *store, check_constraints),
{
    let file_id = top.report_file_id();
    validate_case(m.name(), IdentifierCaseConvention::Member, file_id, out);
    match m.target_type() {
        Some(t) => validate_reference(t, top, store, out),
        None => {
            assert(out@ =~= out@ + Seq::<Diagnostic>::empty());
        },
    }
    validate_optional_body(m.body(), file_id, check_constraints, out);
    assert(out@ =~= old(out)@ + member_diagnostics(*m, *top, *store, check_constraints));
}

fn validate_members(
    members: &Vec<Member>,
    top: &Module,
    store: &ModuleStore,
    check_constraints: bool,
    out: &mut Vec<Diagnostic>,
)
    ensures
        final(out)@ == old(out)@ + flatten(members@, member_fn(*top, *store, check_constraints)),
{
    let ghost f = member_fn(*top, *store, check_constraints);
    let ghost start = out@;
    let mut i: usize = 0;
    while i < members.len()
        invariant
            i <= members@.len(),
            f == member_fn(*top, *store, check_constraints),
            out@ == start + flatten(members@.subrange(0, i as int), f),
        decreases members@.len() - i,
    {
        proof {
            lemma_flatten_prefix(members@, i as int, f);
        }
        validate_member(&members[i], top, store, check_constraints, out);
        assert(out@ =~= start + flatten(members@.subrange(0, i + 1), f));
        i = i + 1;
    }
    proof {
        lemma_flatten_all(members@, f);
    }
}

fn validate_entity_members(
    members: &Vec<EntityMember>,
    top: &Module,
    store: &ModuleStore,
    check_constraints: bool,
    out: &mut Vec<Diagnostic>,
)
    ensures
        final(out)@ == old(out)@ + flatten(
            members@,
            entity_member_fn(*top, *store, check_constraints),
        ),
{
    let ghost f = entity_member_fn(*top, *store, check_constraints);
    let ghost start = out@;
    let mut i: usize = 0;
    while i < members.len()
        invariant
            i <= members@.len(),
            f == entity_member_fn(*top, *store, check_constraints),
            out@ == start + flatten(members@.subrange(0, i as int), f),
        decreases members@.len() - i,
    {
        proof {
            lemma_flatten_prefix(members@, i as int, f);
        }
        validate_member(members[i].member(), top, store, check_constraints, out);
        assert(out@ =~= start + flatten(members@.subrange(0, i + 1), f));
        i = i + 1;
    }
    proof {
        lemma_flatten_all(members@, f);
    }
}

fn validate_entity_groups(
    groups: &Vec<EntityGroup>,
    top: &Module,
    store: &ModuleStore,
    check_constraints: bool,
    out: &mut Vec<Diagnostic>,
)
    ensures
        final(out)@ == old(out)@ + flatten(
            groups@,
            entity_group_fn(*top, *store, check_constraints),
        ),
{
    let ghost f = entity_group_fn(*top, *store, check_constraints);
    let ghost start = out@;
    let file_id = top.report_file_id();
    let mut i: usize = 0;
    while i < groups.len()
        invariant
            i <= groups@.len(),
            file_id == top.spec_report_file_id(),
            f == entity_group_fn(*top, *store, check_constraints),
            out@ == start + flatten(groups@.subrange(0, i as int), f),
        decreases groups@.len() - i,
    {
        proof {
            lemma_flatten_prefix(groups@, i as int, f);
        }
        let group = &groups[i];
        validate_annotations(group.annotations(), file_id, check_constraints, out);
        validate_entity_members(group.members(), top, store, check_constraints, out);
        assert(out@ =~= start + flatten(groups@.subrange(0, i + 1), f));
        i = i + 1;
    }
    proof {
        lemma_flatten_all(groups@, f);
    }
}

fn validate_entity_body(
    b: &EntityBody,
    top: &Module,
    store: &ModuleStore,
    check_constraints: bool,
    out: &mut Vec<Diagnostic>,
)
    ensures
        final(out)@ == old(out)@ + entity_body_diagnostics(*b, *top, *store, check_constraints),
{
    validate_annotations(b.annotations(), top.report_file_id(), check_constraints, out);
    validate_member(b.identity(), top, store, check_constraints, out);
    validate_entity_members(b.members(), top, store, check_constraints, out);
    validate_entity_groups(b.groups(), top, store, check_constraints, out);
    assert(out@ =~= old(out)@ + entity_body_diagnostics(*b, *top, *store, check_constraints));
}

fn validate_member_groups(
    groups: &Vec<MemberGroup>,
    top: &Module,
    store: &ModuleStore,
    check_constraints: bool,
    out: &mut Vec<Diagnostic>,
)
    ensures
        final(out)@ == old(out)@ + flatten(
            groups@,
            member_group_fn(*top, *store, check_constraints),
        ),
{
    let ghost f = member_group_fn(*top, *store, check_constraints);
    let ghost start = out@;
    let file_id = top.report_file_id();
    let mut i: usize = 0;
    while i < groups.len()
        invariant
            i <= groups@.len(),
            file_id == top.spec_report_file_id(),
            f == member_group_fn(*top, *store, check_constraints),
            out@ == start + flatten(groups@.subrange(0, i as int), f),
        decreases groups@.len() - i,
    {
        proof {
            lemma_flatten_prefix(groups@, i as int, f);
        }
        let group = &groups[i];
        validate_annotations(group.annotations(), file_id, check_constraints, out);
        validate_members(group.members(), top, store, check_constraints, out);
        assert(out@ =~= start + flatten(groups@.subrange(0, i + 1), f));
        i = i + 1;
    }
    proof {
        lemma_flatten_all(groups@, f);
    }
}

fn validate_structure_body(
    b: &StructureBody,
    top: &Module,
    store: &ModuleStore,
    check_constraints: bool,
    out: &mut Vec<Diagnostic>,
)
    ensures
        final(out)@ == old(out)@ + structure_body_diagnostics(
            *b,
            *top,
            *store,
            check_constraints,
        ),
{
    validate_annotations(b.annotations(), top.report_file_id(), check_constraints, out);
    validate_members(b.members(), top, store, check_constraints, out);
    validate_member_groups(b.groups(), top, store, check_constraints, out);
    assert(out@ =~= old(out)@ + structure_body_diagnostics(*b, *top, *store, check_constraints));
}

fn validate_variant_names(
    variants: &Vec<crate::identifiers::Identifier>,
    file_id: FileId,
    out: &mut Vec<Diagnostic>,
)
    ensures
        final(out)@ == old(out)@ + flatten(variants@, variant_name_fn(file_id)),
{
    let ghost f = variant_name_fn(file_id);
    let ghost start = out@;
    let mut i: usize = 0;
    while i < variants.len()
        invariant
            i <= variants@.len(),
            f == variant_name_fn(file_id),
            out@ == start + flatten(variants@.subrange(0, i as int), f),
        decreases variants@.len() - i,
    {
        proof {
            lemma_flatten_prefix(variants@, i as int, f);
        }
        validate_case(&variants[i], IdentifierCaseConvention::ValueVariant, file_id, out);
        assert(out@ =~= start + flatten(variants@.subrange(0, i + 1), f));
        i = i + 1;
    }
    proof {
        lemma_flatten_all(variants@, f);
    }
}

fn validate_references(
    references: &Vec<IdentifierReference>,
    top: &Module,
    store: &ModuleStore,
    out: &mut Vec<Diagnostic>,
)
    ensures
        final(out)@ == old(out)@ + flatten(references@, reference_fn(*top, *store)),
{
    let ghost f = reference_fn(*top, *store);
    let ghost start = out@;
    let mut i: usize = 0;
    while i < references.len()
        invariant
            i <= references@.len(),
            f == reference_fn(*top, *store),
            out@ == start + flatten(references@.subrange(0, i as int), f),
        decreases references@.len() - i,
    {
        proof {
            lemma_flatten_prefix(references@, i as int, f);
        }
        validate_reference(&references[i], top, store, out);
        assert(out@ =~= start + flatten(references@.subrange(0, i + 1), f));
        i = i + 1;
    }
    proof {
        lemma_flatten_all(references@, f);
    }
}

/// Validates one definition, appending what [`definition_diagnostics`] says.
pub fn validate_definition(
    d: &Definition,
    top: &Module,
    store: &ModuleStore,
    check_constraints: bool,
    out: &mut Vec<Diagnostic>,
)
    ensures
        final(out)@ == old(out)@ + definition_diagnostics(*d, *top, *store, check_constraints),
{
    let file_id = top.report_file_id();
    match d {
        Definition::Datatype(v) => {
            validate_case(v.name(), IdentifierCaseConvention::TypeDefinition, file_id, out);
            validate_reference(v.base_type(), top, store, out);
            validate_optional_body(v.body(), file_id, check_constraints, out);
            assert(out@ =~= old(out)@ + definition_diagnostics(*d, *top, *store, check_constraints));
        },
        Definition::Entity(v) => {
            validate_case(v.name(), IdentifierCaseConvention::TypeDefinition, file_id, out);
            match v.body() {
                Some(b) => validate_entity_body(b, top, store, check_constraints, out),
                None => {},
            }
            assert(out@ =~= old(out)@ + definition_diagnostics(*d, *top, *store, check_constraints));
        },
        Definition::Enum(v) => {
            validate_case(v.name(), IdentifierCaseConvention::TypeDefinition, file_id, out);
            match v.body() {
                Some(b) => {
                    validate_annotations(b.annotations(), file_id, check_constraints, out);
                    validate_variant_names(b.variants(), file_id, out);
                },
                None => {},
            }
            assert(out@ =~= old(out)@ + definition_diagnostics(*d, *top, *store, check_constraints));
        },
        Definition::Event(v) => {
            validate_case(v.name(), IdentifierCaseConvention::TypeDefinition, file_id, out);
            validate_reference(v.event_source(), top, store, out);
            match v.body() {
                Some(b) => validate_structure_body(b, top, store, check_constraints, out),
                None => {},
            }
            assert(out@ =~= old(out)@ + definition_diagnostics(*d, *top, *store, check_constraints));
        },
        Definition::Property(v) => {
            validate_member(v.member(), top, store, check_constraints, out);
            assert(out@ =~= old(out)@ + definition_diagnostics(*d, *top, *store, check_constraints));
        },
        Definition::Rdf(v) => {
            validate_case(v.name(), IdentifierCaseConvention::RdfDefinition, file_id, out);
            validate_annotations(v.body().annotations(), file_id, check_constraints, out);
            assert(out@ =~= old(out)@ + definition_diagnostics(*d, *top, *store, check_constraints));
        },
        Definition::Structure(v) => {
            validate_case(v.name(), IdentifierCaseConvention::TypeDefinition, file_id, out);
            match v.body() {
                Some(b) => validate_structure_body(b, top, store, check_constraints, out),
                None => {},
            }
            assert(out@ =~= old(out)@ + definition_diagnostics(*d, *top, *store, check_constraints));
        },
        Definition::TypeClass(v) => {
            validate_case(v.name(), IdentifierCaseConvention::TypeDefinition, file_id, out);
            validate_optional_body(v.body(), file_id, check_constraints, out);
            assert(out@ =~= old(out)@ + definition_diagnostics(*d, *top, *store, check_constraints));
        },
        Definition::Union(v) => {
            validate_case(v.name(), IdentifierCaseConvention::TypeDefinition, file_id, out);
            match v.body() {
                Some(b) => {
                    validate_annotations(b.annotations(), file_id, check_constraints, out);
                    validate_references(b.variants(), top, store, out);
                },
                None => {},
            }
            assert(out@ =~= old(out)@ + definition_diagnostics(*d, *top, *store, check_constraints));
        },
    }
}

/// Validates one import, appending what [`import_diagnostics`] says.
pub fn validate_import(
    import: &Import,
    top: &Module,
    store: &ModuleStore,
    out: &mut Vec<Diagnostic>,
)
    ensures
        final(out)@ == old(out)@ + import_diagnostics(*import, *top, *store),
{
    let file_id = top.report_file_id();
    match import {
        Import::Module(mi) => {
            validate_case(mi.name(), IdentifierCaseConvention::Module, file_id, out);
            match store.get(mi.name()) {
                None => {
                    out.push(
                        Diagnostic::ImportedModuleNotFound {
                            file_id,
                            span: mi.ts_span(),
                            name: mi.name().duplicate(),
                        },
                    );
                },
                Some(actual) => match (mi.version_uri(), actual.version_uri()) {
                    (None, _) => {},
                    (Some(expected), Some(found)) => {
                        if *expected.value() != *found.value() {
                            out.push(
                                Diagnostic::ModuleVersionMismatch {
                                    file_id,
                                    span: mi.ts_span(),
                                    expected: expected.value().clone(),
                                    actual: found.value().clone(),
                                },
                            );
                        }
                    },
                    (Some(expected), None) => {
                        out.push(
                            Diagnostic::ModuleVersionNotFound {
                                file_id,
                                span: mi.ts_span(),
                                expected: expected.value().clone(),
                                name: mi.name().duplicate(),
                            },
                        );
                    },
                },
            }
        },
        Import::Member(q) => {
            validate_case(q.module(), IdentifierCaseConvention::Module, file_id, out);
            match store.get(q.module()) {
                None => {
                    out.push(
                        Diagnostic::ImportedModuleNotFound {
                            file_id,
                            span: q.ts_span(),
                            name: q.module().duplicate(),
                        },
                    );
                },
                Some(actual) => {
                    if actual.resolve_local(q.member()).is_none() {
                        out.push(
                            Diagnostic::DefinitionNotFound {
                                file_id,
                                span: q.ts_span(),
                                name: q.duplicate(),
                            },
                        );
                    }
                },
            }
        },
    }
    assert(out@ =~= old(out)@ + import_diagnostics(*import, *top, *store));
}

fn validate_statement(
    statement: &ImportStatement,
    top: &Module,
    store: &ModuleStore,
    out: &mut Vec<Diagnostic>,
)
    ensures
        final(out)@ == old(out)@ + statement_diagnostics(*statement, *top, *store),
{
    let imports = statement.imports();
    let ghost f = import_fn(*top, *store);
    let ghost start = out@;
    let mut i: usize = 0;
    while i < imports.len()
        invariant
            i <= imports@.len(),
            imports@ == statement.spec_imports(),
            f == import_fn(*top, *store),
            out@ == start + flatten(imports@.subrange(0, i as int), f),
        decreases imports@.len() - i,
    {
        proof {
            lemma_flatten_prefix(imports@, i as int, f);
        }
        validate_import(&imports[i], top, store, out);
        assert(out@ =~= start + flatten(imports@.subrange(0, i + 1), f));
        i = i + 1;
    }
    proof {
        lemma_flatten_all(imports@, f);
    }
}

fn validate_statements(
    statements: &Vec<ImportStatement>,
    top: &Module,
    store: &ModuleStore,
    out: &mut Vec<Diagnostic>,
)
    ensures
        final(out)@ == old(out)@ + flatten(statements@, statement_fn(*top, *store)),
{
    let ghost f = statement_fn(*top, *store);
    let ghost start = out@;
    let mut i: usize = 0;
    while i < statements.len()
        invariant
            i <= statements@.len(),
            f == statement_fn(*top, *store),
            out@ == start + flatten(statements@.subrange(0, i as int), f),
        decreases statements@.len() - i,
    {
        proof {
            lemma_flatten_prefix(statements@, i as int, f);
        }
        validate_statement(&statements[i], top, store, out);
        assert(out@ =~= start + flatten(statements@.subrange(0, i + 1), f));
        i = i + 1;
    }
    proof {
        lemma_flatten_all(statements@, f);
    }
}

fn validate_definitions(
    definitions: &Vec<Definition>,
    top: &Module,
    store: &ModuleStore,
    check_constraints: bool,
    out: &mut Vec<Diagnostic>,
)
    ensures
        final(out)@ == old(out)@ + flatten(
            definitions@,
            definition_fn(*top, *store, check_constraints),
        ),
{
    let ghost f = definition_fn(*top, *store, check_constraints);
    let ghost start = out@;
    let mut i: usize = 0;
    while i < definitions.len()
        invariant
            i <= definitions@.len(),
            f == definition_fn(*top, *store, check_constraints),
            out@ == start + flatten(definitions@.subrange(0, i as int), f),
        decreases definitions@.len() - i,
    {
        proof {
            lemma_flatten_prefix(definitions@, i as int, f);
        }
        validate_definition(&definitions[i], top, store, check_constraints, out);
        assert(out@ =~= start + flatten(definitions@.subrange(0, i + 1), f));
        i = i + 1;
    }
    proof {
        lemma_flatten_all(definitions@, f);
    }
}

/// Validates a module body against the module `top` that holds it.
pub fn validate_body(
    body: &ModuleBody,
    top: &Module,
    store: &ModuleStore,
    check_constraints: bool,
    out: &mut Vec<Diagnostic>,
)
    ensures
        final(out)@ == old(out)@ + body_diagnostics(*body, *top, *store, check_constraints),
{
    validate_statements(body.imports(), top, store, out);
    validate_annotations(body.annotations(), top.report_file_id(), check_constraints, out);
    validate_definitions(body.definitions(), top, store, check_constraints, out);
    assert(out@ =~= old(out)@ + body_diagnostics(*body, *top, *store, check_constraints));
}

impl Module {
    /// Validates the module against the modules of `store`, appending every problem found
    /// to `out` in the order of [`module_diagnostics`]. Constraints are checked only where
    /// `check_constraints` holds. Library modules are not checked.
    pub fn validate(&self, store: &ModuleStore, check_constraints: bool, out: &mut Vec<Diagnostic>)
        ensures
            final(out)@ == old(out)@ + module_diagnostics(*self, *store, check_constraints),
    {
        if !self.is_library_module() {
            let file_id = self.report_file_id();
            validate_case(self.name(), IdentifierCaseConvention::Module, file_id, out);
            if let Some(version_info) = self.version_info() {
                if version_info.value().as_str().is_empty() {
                    out.push(
                        Diagnostic::ModuleVersionInfoEmpty {
                            file_id,
                            span: version_info.source_span(),
                        },
                    );
                }
            }
            validate_body(self.body(), self, store, check_constraints, out);
            if self.is_incomplete(store) {
                out.push(
                    Diagnostic::ModuleIsIncomplete {
                        file_id,
                        span: self.ts_span(),
                        name: self.name().duplicate(),
                    },
                );
            }
        }
        assert(out@ =~= old(out)@ + module_diagnostics(*self, *store, check_constraints));
    }
}

/// Validation is idempotent: validating a module twice against an unchanged store
/// appends the same sequence of diagnostics both times.
pub proof fn lemma_validation_idempotent(
    m: Module,
    store: ModuleStore,
    check_constraints: bool,
    start: Seq<Diagnostic>,
)
    ensures
        ({
            let once = start + module_diagnostics(m, store, check_constraints);
            let twice = once + module_diagnostics(m, store, check_constraints);
            twice.subrange(start.len() as int, once.len() as int) == twice.subrange(
                once.len() as int,
                twice.len() as int,
            )
        }),
{
    let once = start + module_diagnostics(m, store, check_constraints);
    let twice = once + module_diagnostics(m, store, check_constraints);
    assert(twice.subrange(start.len() as int, once.len() as int) =~= module_diagnostics(
        m,
        store,
        check_constraints,
    ));
    assert(twice.subrange(once.len() as int, twice.len() as int) =~= module_diagnostics(
        m,
        store,
        check_constraints,
    ));
}

/// Library modules are exempt: validating one reports nothing and it is never incomplete,
/// whatever its body holds.
pub proof fn lemma_library_module_exempt(m: Module, store: ModuleStore, check_constraints: bool)
    requires
        m.spec_is_library(),
    ensures
        module_diagnostics(m, store, check_constraints).len() == 0,
        !m.spec_incomplete(),
{
}

/// Whether a diagnostic is about the version of an imported module.
pub open spec fn is_version_diagnostic(d: Diagnostic) -> bool {
    d is ModuleVersionMismatch || d is ModuleVersionNotFound
}

/// A module import without a version URI never yields a version diagnostic, whatever
/// the store holds.
pub proof fn lemma_unversioned_import_has_no_version_diagnostic(
    import: crate::modules::ModuleImport,
    top: Module,
    store: ModuleStore,
)
    requires
        import.spec_version_uri() is None,
    ensures
        forall|i: int|
            0 <= i < import_diagnostics(Import::Module(import), top, store).len()
                ==> !is_version_diagnostic(
                #[trigger] import_diagnostics(Import::Module(import), top, store)[i],
            ),
{
    let file_id = top.spec_report_file_id();
    let naming = case_diagnostics(import.spec_name(), IdentifierCaseConvention::Module, file_id);
    let found = match store.spec_get(import.spec_name().spec_value()) {
        None => seq![
            Diagnostic::ImportedModuleNotFound {
                file_id,
                span: import.spec_span(),
                name: import.spec_name(),
            },
        ],
        Some(_) => Seq::<Diagnostic>::empty(),
    };
    assert(import_diagnostics(Import::Module(import), top, store) == naming + found);
    assert forall|i: int| 0 <= i < (naming + found).len() implies !is_version_diagnostic(
        #[trigger] (naming + found)[i],
    ) by {
        if i < naming.len() {
            assert(naming[i] is IdentifierNotPreferredCase);
        } else {
            assert(found[i - naming.len()] is ImportedModuleNotFound);
        }
    }
}

/// A definition of a kind that needs a body (an entity, a structure or an event) and has
/// none.
pub open spec fn lacks_body(d: Definition) -> bool {
    match d {
        Definition::Entity(v) => v.spec_body() is None,
        Definition::Structure(v) => v.spec_body() is None,
        Definition::Event(v) => v.spec_body() is None,
        _ => false,
    }
}

/// `after` is `before` of the same kind and name, now with a body.
pub open spec fn gains_body(before: Definition, after: Definition) -> bool {
    before.spec_name() == after.spec_name() && match (before, after) {
        (Definition::Entity(_), Definition::Entity(v)) => v.spec_body() is Some,
        (Definition::Structure(_), Definition::Structure(v)) => v.spec_body() is Some,
        (Definition::Event(_), Definition::Event(v)) => v.spec_body() is Some,
        _ => false,
    }
}

/// Completeness is monotone: giving a body to an entity, structure or event that had
/// none removes that definition from the incomplete ones and adds none; every definition
/// that is incomplete afterwards was incomplete before, and so was the module.
pub proof fn lemma_adding_body_never_adds_incompleteness(
    before: Module,
    after: Module,
    i: int,
    definition: Definition,
)
    requires
        0 <= i < before.spec_body().spec_definitions().len(),
        lacks_body(before.spec_body().spec_definitions()[i]),
        gains_body(before.spec_body().spec_definitions()[i], definition),
        after.spec_name() == before.spec_name(),
        after.spec_body().spec_definitions() == before.spec_body().spec_definitions().update(
            i,
            definition,
        ),
    ensures
        forall|j: int|
            0 <= j < after.spec_body().spec_definitions().len() && !(
            #[trigger] after.spec_body().spec_definitions()[j]).spec_complete()
                ==> !before.spec_body().spec_definitions()[j].spec_complete(),
        after.spec_incomplete() ==> before.spec_incomplete(),
        after.spec_body().spec_definitions()[i].spec_complete(),
{
    let defs = before.spec_body().spec_definitions();
    assert(!defs[i].spec_complete());
}


} // verus!
