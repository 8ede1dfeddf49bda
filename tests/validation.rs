use sdml_core::definitions::{Definition, RdfDef, TypeClassDef};
use sdml_core::diagnostics::{Diagnostic, DiagnosticCode, Severity};
use sdml_core::entities::{EntityBody, EntityDef, EntityMember};
use sdml_core::identifiers::{Identifier, IdentifierReference, QualifiedIdentifier, Span};
use sdml_core::members::Member;
use sdml_core::modules::{HeaderValue, Import, ImportStatement, Module, ModuleImport, ModuleStore};
use sdml_core::structures::{StructureBody, StructureDef};

fn id(s: &str) -> Identifier {
    Identifier::new_unchecked(s)
}

fn entity_with_body(name: &str) -> Definition {
    let body = EntityBody::new(Member::new(
        id("id"),
        IdentifierReference::Identifier(id("Thing")),
    ));
    Definition::Entity(EntityDef::new(id(name)).with_body(body))
}

fn validate(module: &Module, store: &ModuleStore, check: bool) -> Vec<Diagnostic> {
    let mut out = Vec::new();
    module.validate(store, check, &mut out);
    out
}

fn codes(diagnostics: &[Diagnostic]) -> Vec<DiagnosticCode> {
    diagnostics.iter().map(|d| d.code()).collect()
}

fn thing_module() -> Module {
    let mut m = Module::empty(id("m1"));
    let thing = Definition::Structure(StructureDef::new(id("Thing")).with_body(StructureBody::new()));
    m.add_to_definitions(thing).unwrap();
    m
}

#[test]
fn scenario_a_version_mismatch_is_reported_at_the_import() {
    let mut store = ModuleStore::new();
    let m2 = Module::empty(id("m2")).with_version_uri(HeaderValue::new("https://x/v2".to_string()));
    store.insert(m2);

    let import_span = Span::new(10, 40);
    let import = ModuleImport::new(id("m2"))
        .with_version_uri(HeaderValue::new("https://x/v1".to_string()))
        .with_ts_span(import_span);
    let mut m1 = Module::empty(id("m1")).with_file_id(7);
    m1.add_to_imports(ImportStatement::new(vec![Import::Module(import)]));

    let out = validate(&m1, &store, true);
    assert_eq!(out.len(), 1);
    assert_eq!(out[0].code(), DiagnosticCode::ModuleVersionMismatch);
    assert_eq!(out[0].file_id(), 7);
    assert_eq!(out[0].span(), Some(import_span));
    assert_eq!(out[0].severity(), Severity::Error);
    match &out[0] {
        Diagnostic::ModuleVersionMismatch { expected, actual, .. } => {
            assert_eq!(expected, "https://x/v1");
            assert_eq!(actual, "https://x/v2");
        }
        other => panic!("unexpected diagnostic {:?}", other),
    }
}

#[test]
fn scenario_b_missing_member_is_reported() {
    let mut store = ModuleStore::new();
    store.insert(Module::empty(id("m2")));
    let mut m1 = Module::empty(id("m1"));
    m1.add_to_imports(ImportStatement::new_member(QualifiedIdentifier::new(id("m2"), id("Foo"))));

    let out = validate(&m1, &store, true);
    assert_eq!(codes(&out), vec![DiagnosticCode::DefinitionNotFound]);
    match &out[0] {
        Diagnostic::DefinitionNotFound { name, .. } => {
            assert_eq!(name.module().value(), "m2");
            assert_eq!(name.member().value(), "Foo");
        }
        other => panic!("unexpected diagnostic {:?}", other),
    }
}

#[test]
fn scenario_c_rdf_definition_refused_outside_library() {
    let mut m1 = Module::empty(id("m1")).with_file_id(3);
    let result = m1.add_to_definitions(Definition::Rdf(RdfDef::class(id("Thing"))));
    let error = result.unwrap_err();
    assert_eq!(error.name().value(), "Thing");
    assert_eq!(error.file_id(), 3);
    assert_eq!(m1.body().definitions_len(), 0);

    let result = m1.add_to_definitions(Definition::TypeClass(TypeClassDef::new(id("Ord"))));
    assert!(result.is_err());

    let mut rdfs = Module::empty(id("rdfs"));
    assert!(rdfs.add_to_definitions(Definition::Rdf(RdfDef::class(id("Class")))).is_ok());
    assert_eq!(rdfs.body().definitions_len(), 1);
}

#[test]
fn scenario_d_entity_without_body_is_incomplete() {
    let store = ModuleStore::new();
    let mut m1 = Module::empty(id("m1"));
    m1.add_to_definitions(Definition::Entity(EntityDef::new(id("Person")))).unwrap();
    assert!(m1.is_incomplete(&store));

    let out = validate(&m1, &store, true);
    assert_eq!(codes(&out), vec![DiagnosticCode::ModuleIsIncomplete]);
    match &out[0] {
        Diagnostic::ModuleIsIncomplete { name, .. } => assert_eq!(name.value(), "m1"),
        other => panic!("unexpected diagnostic {:?}", other),
    }
}

#[test]
fn validating_twice_reports_the_same() {
    let mut store = ModuleStore::new();
    store.insert(Module::empty(id("m2")));
    let mut m1 = Module::empty(id("BadName"));
    m1.add_to_imports(ImportStatement::new_module(id("missing")));
    m1.add_to_imports(ImportStatement::new_member(QualifiedIdentifier::new(id("m2"), id("Foo"))));
    m1.add_to_definitions(Definition::Entity(EntityDef::new(id("person")))).unwrap();

    let first = validate(&m1, &store, true);
    let second = validate(&m1, &store, true);
    assert_eq!(codes(&first), codes(&second));
    assert_eq!(
        codes(&first),
        vec![
            DiagnosticCode::IdentifierNotPreferredCase,
            DiagnosticCode::ImportedModuleNotFound,
            DiagnosticCode::DefinitionNotFound,
            DiagnosticCode::IdentifierNotPreferredCase,
            DiagnosticCode::ModuleIsIncomplete,
        ]
    );
    let mut both = Vec::new();
    m1.validate(&store, true, &mut both);
    m1.validate(&store, true, &mut both);
    assert_eq!(both.len(), 2 * first.len());
}

#[test]
fn library_module_is_exempt() {
    let store = ModuleStore::new();
    let mut owl = Module::empty(id("owl"));
    owl.add_to_imports(ImportStatement::new_module(id("NotThere")));
    owl.add_to_definitions(Definition::Entity(EntityDef::new(id("lower")))).unwrap();
    assert!(owl.is_library_module());
    assert!(!owl.is_incomplete(&store));
    assert!(validate(&owl, &store, true).is_empty());
}

#[test]
fn unversioned_import_never_reports_version() {
    let mut store = ModuleStore::new();
    store.insert(Module::empty(id("m2")).with_version_uri(HeaderValue::new("https://x/v2".to_string())));
    store.insert(Module::empty(id("m3")));
    let mut m1 = Module::empty(id("m1"));
    m1.add_to_imports(ImportStatement::new_module(id("m2")));
    m1.add_to_imports(ImportStatement::new_module(id("m3")));
    assert!(validate(&m1, &store, true).is_empty());
}

#[test]
fn versioned_import_of_unversioned_module() {
    let mut store = ModuleStore::new();
    store.insert(Module::empty(id("m2")));
    let mut m1 = Module::empty(id("m1"));
    m1.add_to_imports(ImportStatement::new_module_with_version_uri(
        id("m2"),
        HeaderValue::new("https://x/v1".to_string()),
    ));
    let out = validate(&m1, &store, true);
    assert_eq!(codes(&out), vec![DiagnosticCode::ModuleVersionNotFound]);
}

#[test]
fn matching_version_is_accepted() {
    let mut store = ModuleStore::new();
    store.insert(Module::empty(id("m2")).with_version_uri(HeaderValue::new("https://x/v1".to_string())));
    let mut m1 = Module::empty(id("m1"));
    m1.add_to_imports(ImportStatement::new_module_with_version_uri(
        id("m2"),
        HeaderValue::new("https://x/v1".to_string()),
    ));
    assert!(validate(&m1, &store, true).is_empty());
}

#[test]
fn missing_module_import_is_reported() {
    let store = ModuleStore::new();
    let mut m1 = Module::empty(id("m1"));
    m1.add_to_imports(ImportStatement::new_module(id("nowhere")));
    m1.add_to_imports(ImportStatement::new_member(QualifiedIdentifier::new(id("elsewhere"), id("Foo"))));
    let out = validate(&m1, &store, true);
    assert_eq!(
        codes(&out),
        vec![DiagnosticCode::ImportedModuleNotFound, DiagnosticCode::ImportedModuleNotFound]
    );
}

#[test]
fn adding_a_body_removes_incompleteness() {
    let store = ModuleStore::new();
    let mut m1 = thing_module();
    m1.add_to_definitions(Definition::Entity(EntityDef::new(id("Person")))).unwrap();
    assert!(m1.is_incomplete(&store));

    let mut m2 = thing_module();
    m2.add_to_definitions(entity_with_body("Person")).unwrap();
    assert!(!m2.is_incomplete(&store));
    assert!(validate(&m2, &store, true).is_empty());
}

#[test]
fn empty_version_info_is_a_warning() {
    let store = ModuleStore::new();
    let span = Span::new(3, 5);
    let m1 = Module::empty(id("m1")).with_version_info(HeaderValue::new(String::new()).with_source_span(span));
    let out = validate(&m1, &store, true);
    assert_eq!(codes(&out), vec![DiagnosticCode::ModuleVersionInfoEmpty]);
    assert_eq!(out[0].severity(), Severity::Warning);
    assert_eq!(out[0].span(), Some(span));

    let m2 = Module::empty(id("m1")).with_version_info(HeaderValue::new("1.0".to_string()));
    assert!(validate(&m2, &store, true).is_empty());
}

#[test]
fn unresolved_member_type_is_reported() {
    let store = ModuleStore::new();
    let mut m1 = Module::empty(id("m1"));
    let mut body = StructureBody::new();
    body.add_to_members(Member::new(id("owner"), IdentifierReference::Identifier(id("Nobody"))));
    m1.add_to_definitions(Definition::Structure(StructureDef::new(id("Car")).with_body(body)))
        .unwrap();
    let out = validate(&m1, &store, true);
    assert_eq!(codes(&out), vec![DiagnosticCode::TypeDefinitionNotFound]);
}

#[test]
fn member_with_unknown_type_leaves_only_the_body_incomplete() {
    let store = ModuleStore::new();
    let mut m1 = Module::empty(id("m1"));
    let mut body = StructureBody::new();
    body.add_to_members(Member::new_unknown(id("owner")));
    assert!(!body.is_complete());
    let car = StructureDef::new(id("Car")).with_body(body);
    assert!(car.is_complete());
    m1.add_to_definitions(Definition::Structure(car)).unwrap();
    assert!(!m1.is_incomplete(&store));
    assert!(validate(&m1, &store, true).is_empty());
}

#[test]
fn qualified_reference_resolves_through_the_store() {
    let mut store = ModuleStore::new();
    let mut m2 = Module::empty(id("m2"));
    m2.add_to_definitions(entity_with_body("Thing")).unwrap();
    store.insert(m2);

    let mut m1 = thing_module();
    let mut body = EntityBody::new(Member::new(
        id("id"),
        IdentifierReference::QualifiedIdentifier(QualifiedIdentifier::new(id("m2"), id("Thing"))),
    ));
    body.add_to_members(EntityMember::ByReference(Member::new(
        id("other"),
        IdentifierReference::QualifiedIdentifier(QualifiedIdentifier::new(id("m2"), id("Other"))),
    )));
    m1.add_to_definitions(Definition::Entity(EntityDef::new(id("Person")).with_body(body)))
        .unwrap();
    let out = validate(&m1, &store, true);
    assert_eq!(codes(&out), vec![DiagnosticCode::TypeDefinitionNotFound]);
    assert!(sdml_core::modules::resolve(
        &IdentifierReference::QualifiedIdentifier(QualifiedIdentifier::new(id("m2"), id("Thing"))),
        &m1,
        &store
    )
    .is_some());
    assert!(sdml_core::modules::resolve(&IdentifierReference::Identifier(id("Person")), &m1, &store)
        .is_some());
    assert!(sdml_core::modules::resolve(&IdentifierReference::Identifier(id("Nobody")), &m1, &store)
        .is_none());
}

#[test]
fn case_conventions_are_warnings() {
    let store = ModuleStore::new();
    let mut m1 = Module::empty(id("Module1"));
    m1.add_to_definitions(entity_with_body("lower_case")).unwrap();
    m1.add_to_definitions(Definition::Structure(StructureDef::new(id("Thing")).with_body(StructureBody::new())))
        .unwrap();
    let out = validate(&m1, &store, true);
    assert_eq!(
        codes(&out),
        vec![DiagnosticCode::IdentifierNotPreferredCase, DiagnosticCode::IdentifierNotPreferredCase]
    );
    assert!(out.iter().all(|d| d.severity() == Severity::Warning));
}

#[test]
fn diagnostic_messages() {
    let mut store = ModuleStore::new();
    store.insert(Module::empty(id("m2")).with_version_uri(HeaderValue::new("https://x/v2".to_string())));
    store.insert(Module::empty(id("m3")));
    let mut m1 = Module::empty(id("Bad"));
    m1.add_to_imports(ImportStatement::new_module_with_version_uri(id("m2"), HeaderValue::new("https://x/v1".to_string())));
    m1.add_to_imports(ImportStatement::new_module_with_version_uri(id("m3"), HeaderValue::new("https://y".to_string())));
    m1.add_to_imports(ImportStatement::new_module(id("gone")));
    m1.add_to_imports(ImportStatement::new_member(QualifiedIdentifier::new(id("m3"), id("Foo"))));
    let mut body = StructureBody::new();
    body.add_to_members(Member::new(id("x"), IdentifierReference::QualifiedIdentifier(QualifiedIdentifier::new(id("m3"), id("Bar")))));
    m1.add_to_definitions(Definition::Structure(StructureDef::new(id("S")).with_body(body))).unwrap();
    m1.add_to_definitions(Definition::Entity(EntityDef::new(id("E")))).unwrap();
    let messages: Vec<String> = validate(&m1, &store, true).iter().map(|d| d.message()).collect();
    assert_eq!(
        messages,
        vec![
            "identifier `Bad` does not follow the module naming convention",
            "expected module version `https://x/v1` but found `https://x/v2`",
            "expected module version `https://y` but module `m3` has no version URI",
            "imported module `gone` was not found",
            "definition `m3:Foo` was not found",
            "type `m3:Bar` was not found",
            "module `Bad` is incomplete",
        ]
    );
    let empty = Module::empty(id("m4")).with_version_info(HeaderValue::new(String::new()));
    assert_eq!(validate(&empty, &store, true)[0].message(), "module version info is empty");
}
