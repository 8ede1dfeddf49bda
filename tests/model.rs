use sdml_core::annotations::{Annotation, AnnotationOnlyBody, AnnotationProperty};
use sdml_core::constraints::{
    Constraint, ConstraintBody, ControlledLanguageString, ControlledLanguageTag, FormalConstraint,
};
use sdml_core::definitions::{Definition, RdfDef};
use sdml_core::entities::{EntityBody, EntityDef, EntityGroup, EntityMember};
use sdml_core::identifiers::{Identifier, IdentifierCaseConvention, IdentifierReference, QualifiedIdentifier, Span};
use sdml_core::members::Member;
use sdml_core::modules::{HeaderValue, ImportStatement, Module, ModuleImport, ModuleStore};
use sdml_core::values::{SimpleValue, Value};
use sdml_core::diagnostics::DiagnosticCode;

fn id(s: &str) -> Identifier {
    Identifier::new_unchecked(s)
}

fn local(s: &str) -> IdentifierReference {
    IdentifierReference::Identifier(id(s))
}

#[test]
fn language_tags_follow_the_pattern() {
    assert!(ControlledLanguageTag::is_valid("en"));
    assert!(ControlledLanguageTag::is_valid("eng"));
    assert!(ControlledLanguageTag::is_valid("en-ACE"));
    assert!(ControlledLanguageTag::is_valid("en-Attempto"));
    assert!(!ControlledLanguageTag::is_valid("EN"));
    assert!(!ControlledLanguageTag::is_valid("e"));
    assert!(!ControlledLanguageTag::is_valid("english"));
    assert!(!ControlledLanguageTag::is_valid("en-ace"));
    assert!(!ControlledLanguageTag::is_valid(""));
}

#[test]
fn language_tag_from_str() {
    let tag = ControlledLanguageTag::from_str("en-CLCE").unwrap();
    assert_eq!(tag.value(), "en-CLCE");
    assert!(!tag.has_ts_span());
    let error = ControlledLanguageTag::from_str("English").unwrap_err();
    assert_eq!(error.value(), "English");
}

#[test]
fn controlled_language_string_accessors() {
    let mut s = ControlledLanguageString::new(
        "some cars have manual transmissions".to_string(),
        ControlledLanguageTag::new_unchecked("en"),
    );
    assert_eq!(s.value(), "some cars have manual transmissions");
    assert_eq!(s.language().unwrap().value(), "en");
    assert!(!s.has_ts_span());
    s.set_ts_span(Span::new(1, 4));
    assert_eq!(s.ts_span(), Some(Span::new(1, 4)));
    s.unset_ts_span();
    assert!(!s.has_ts_span());
    s.unset_language();
    assert!(s.language().is_none());
    s.set_language(ControlledLanguageTag::new_unchecked("en-ACE"));
    assert_eq!(s.language().unwrap().value(), "en-ACE");
    s.set_value("x".to_string());
    assert_eq!(s.value(), "x");
}

#[test]
fn identifier_conventions() {
    assert!(id("my_module").follows_convention(IdentifierCaseConvention::Module));
    assert!(id("m2").follows_convention(IdentifierCaseConvention::Module));
    assert!(!id("MyModule").follows_convention(IdentifierCaseConvention::Module));
    assert!(!id("").follows_convention(IdentifierCaseConvention::Module));
    assert!(id("Person").follows_convention(IdentifierCaseConvention::TypeDefinition));
    assert!(!id("Person_Type").follows_convention(IdentifierCaseConvention::TypeDefinition));
    assert!(!id("person").follows_convention(IdentifierCaseConvention::TypeDefinition));
    assert!(id("subClassOf").follows_convention(IdentifierCaseConvention::RdfDefinition));
    assert!(id("Class").follows_convention(IdentifierCaseConvention::RdfDefinition));
    assert!(!id("sub_class").follows_convention(IdentifierCaseConvention::RdfDefinition));
    assert!(id("rdfs").is_library_module_name());
    assert!(id("xsd").is_library_module_name());
    assert!(!id("rdfsx").is_library_module_name());
    assert!(!id("m1").is_library_module_name());
}

#[test]
fn identifiers_compare_by_text() {
    assert!(id("a") == id("a").with_ts_span(Span::new(0, 1)));
    assert!(id("a") != id("b"));
    let q = QualifiedIdentifier::new(id("m"), id("T"));
    assert!(IdentifierReference::QualifiedIdentifier(q.duplicate()).is_qualified_as("m", "T"));
    assert!(!IdentifierReference::QualifiedIdentifier(q).is_qualified_as("m", "U"));
    assert!(local("T").same_as(&local("T")));
    assert!(!local("T").same_as(&IdentifierReference::QualifiedIdentifier(QualifiedIdentifier::new(id("m"), id("T")))));
}

#[test]
fn rdf_definitions_know_their_type() {
    let class = RdfDef::class(id("Thing"));
    assert!(class.is_class());
    assert!(!class.is_datatype());
    assert!(!class.is_property());
    let datatype = RdfDef::datatype(id("decimal"));
    assert!(datatype.is_datatype());
    assert!(!datatype.is_class());
    let property = RdfDef::property(id("label"));
    assert!(property.is_property());
    let individual = RdfDef::individual(id("Me"));
    assert!(!individual.is_class() && !individual.is_datatype() && !individual.is_property());
    assert_eq!(class.body().annotations_len(), 1);
    assert_eq!(individual.body().annotations_len(), 0);
}

#[test]
fn entity_body_collections() {
    let mut body = EntityBody::new(Member::new(id("id"), local("Id")));
    assert!(!body.has_members() && !body.has_groups() && !body.has_annotations());
    body.add_to_members(EntityMember::ByValue(Member::new(id("name"), local("Name"))));
    body.extend_members(vec![EntityMember::ByReference(Member::new(id("owner"), local("Person")))]);
    let mut group = EntityGroup::new(vec![EntityMember::ByValue(Member::new(id("age"), local("Age")))]);
    group.add_to_annotations(Annotation::Property(AnnotationProperty::new(
        local("label"),
        Value::Simple(SimpleValue::Boolean(true)),
    )));
    body.add_to_groups(group);
    body.add_to_annotations(Annotation::Constraint(Constraint::new(
        id("rule"),
        ConstraintBody::Formal(FormalConstraint::new("forall x, x = x".to_string())),
    )));
    assert_eq!(body.members_len(), 2);
    assert_eq!(body.groups_len(), 1);
    assert_eq!(body.annotations_len(), 1);
    assert_eq!(body.annotation_constraints().len(), 1);
    assert_eq!(body.annotation_properties().len(), 0);

    let flat: Vec<&str> = body.flat_members().iter().map(|m| m.name().value().as_str()).collect();
    assert_eq!(flat, vec!["name", "owner", "age"]);
    let types: Vec<bool> = body.referenced_types().iter().map(|r| r.is_identifier()).collect();
    assert_eq!(types.len(), 3);
    assert!(body.is_complete());
    assert_eq!(body.groups()[0].referenced_annotations().len(), 1);
    assert!(body.members()[0].is_by_value());
    assert!(body.members()[1].is_by_reference());
    assert!(body.members()[1].as_by_value().is_none());
    assert_eq!(body.identity().name().value(), "id");

    body.add_to_members(EntityMember::ByValue(Member::new_unknown(id("mystery"))));
    assert!(!body.is_complete());
}

#[test]
fn entity_definition_accessors() {
    let mut e = EntityDef::new(id("Person"));
    assert!(!e.has_body());
    assert!(!e.is_complete());
    assert!(e.referenced_types().is_empty());
    e.set_body(EntityBody::new(Member::new(id("id"), local("Id"))));
    assert!(e.has_body());
    assert!(e.is_complete());
    e.set_ts_span(Span::new(0, 9));
    assert!(e.has_ts_span());
    e.unset_ts_span();
    assert!(!e.has_ts_span());
    e.unset_body();
    assert!(e.body().is_none());
}

#[test]
fn definition_references_and_names() {
    let mut body = AnnotationOnlyBody::new();
    body.add_to_annotations(Annotation::Property(AnnotationProperty::new(
        IdentifierReference::QualifiedIdentifier(QualifiedIdentifier::new(id("skos"), id("prefLabel"))),
        Value::Simple(SimpleValue::Unsigned(1)),
    )));
    let member = Member::new(id("name"), local("Name")).with_body(body);
    let mut structure = sdml_core::structures::StructureBody::new();
    structure.add_to_members(member);
    let def = Definition::Structure(sdml_core::structures::StructureDef::new(id("Car")).with_body(structure));
    assert_eq!(def.name().value(), "Car");
    assert_eq!(def.referenced_types().len(), 1);
    let annotations = def.referenced_annotations();
    assert_eq!(annotations.len(), 1);
    assert!(annotations[0].is_qualified_as("skos", "prefLabel"));
    assert!(def.is_complete());
    assert!(!def.is_library_only());
}

#[test]
fn store_lookup_and_shadowing() {
    let mut store = ModuleStore::new();
    assert!(store.get(&id("m1")).is_none());
    store.insert(Module::empty(id("m1")).with_base_uri(HeaderValue::new("https://a/".to_string())));
    store.insert(Module::empty(id("m2")));
    assert_eq!(store.len(), 2);
    assert!(store.contains(&id("m1")));
    assert_eq!(store.url_for_identifier(&id("m1")).unwrap().value(), "https://a/");
    assert!(store.url_for_identifier(&id("m2")).is_none());
    store.insert(Module::empty(id("m1")).with_base_uri(HeaderValue::new("https://b/".to_string())));
    assert_eq!(store.url_for_identifier(&id("m1")).unwrap().value(), "https://b/");
}

#[test]
fn import_statement_accessors() {
    let mut statement = ImportStatement::new_module(id("m2"));
    statement.add_to_imports(sdml_core::modules::Import::Member(QualifiedIdentifier::new(id("m3"), id("Foo"))));
    assert_eq!(statement.imports_len(), 2);
    let modules: Vec<String> = statement.imported_modules().iter().map(|m| m.value().clone()).collect();
    assert_eq!(modules, vec!["m2", "m3"]);
    let types = statement.imported_types();
    assert_eq!(types.len(), 1);
    assert_eq!(types[0].member().value(), "Foo");
    assert!(statement.as_slice()[0].member().is_none());
    assert_eq!(statement.as_slice()[1].member().unwrap().value(), "Foo");
}

#[test]
fn header_and_import_equality_with_span() {
    let a = HeaderValue::new("v".to_string()).with_source_span(Span::new(0, 1));
    let b = HeaderValue::new("v".to_string());
    assert!(!a.eq_with_span(&b));
    assert!(a.eq_with_span(&a.duplicate()));
    let i1 = ModuleImport::new(id("m")).with_version_uri(HeaderValue::new("u".to_string()));
    let i2 = ModuleImport::new(id("m")).with_version_uri(HeaderValue::new("u".to_string()));
    let i3 = ModuleImport::new(id("m"));
    assert!(i1.eq_with_span(&i2));
    assert!(!i1.eq_with_span(&i3));
}

#[test]
fn extend_definitions_stops_at_library_only_kind() {
    let mut m = Module::empty(id("m1"));
    let mut body = sdml_core::modules::ModuleBody::new();
    let result = body.extend_definitions(vec![
        Definition::Entity(EntityDef::new(id("A"))),
        Definition::Rdf(RdfDef::individual(id("b"))),
        Definition::Entity(EntityDef::new(id("C"))),
    ]);
    assert!(result.is_err());
    assert_eq!(body.definitions_len(), 1);
    m.set_body(body);
    assert!(m.resolve_local(&id("A")).is_some());
    assert!(m.resolve_local(&id("C")).is_none());
}

#[test]
fn constraints_checked_only_when_asked() {
    let store = ModuleStore::new();
    let mut m = Module::empty(id("m1"));
    m.body();
    let mut body = sdml_core::modules::ModuleBody::new();
    body.add_to_annotations(Annotation::Constraint(Constraint::new(
        id("BadName"),
        ConstraintBody::Informal(ControlledLanguageString::from_value("all good".to_string())),
    )));
    m.set_body(body);
    let mut out = Vec::new();
    m.validate(&store, false, &mut out);
    assert!(out.is_empty());
    m.validate(&store, true, &mut out);
    assert_eq!(out.len(), 1);
    assert_eq!(out[0].code(), DiagnosticCode::IdentifierNotPreferredCase);
}

#[test]
fn text_forms() {
    let q = QualifiedIdentifier::new(id("xsd"), id("string"));
    assert_eq!(q.to_text(), "xsd:string");
    assert_eq!(IdentifierReference::QualifiedIdentifier(q).to_text(), "xsd:string");
    assert_eq!(local("Person").to_text(), "Person");
    let import = ModuleImport::new(id("m2")).with_version_uri(HeaderValue::new("https://x/v1".to_string()));
    assert_eq!(import.to_text(), "m2 version https://x/v1");
    assert_eq!(ModuleImport::new(id("m2")).to_text(), "m2");
    assert_eq!(
        sdml_core::modules::Import::Member(QualifiedIdentifier::new(id("m3"), id("Foo"))).to_text(),
        "m3:Foo"
    );
    assert_eq!(ControlledLanguageTag::new_unchecked("en-ACE").to_text(), "@en-ACE");
}

#[test]
fn mutable_access_to_entity_collections() {
    let mut body = EntityBody::new(Member::new(id("id"), local("Id")));
    body.members_mut().push(EntityMember::ByValue(Member::new(id("a"), local("A"))));
    body.groups_mut().push(EntityGroup::new(Vec::new()));
    body.annotations_mut().clear();
    assert_eq!(body.members_len(), 1);
    assert_eq!(body.groups_len(), 1);
    let mut group = EntityGroup::new(Vec::new());
    group.members_mut().push(EntityMember::ByValue(Member::new_unknown(id("b"))));
    assert!(!group.is_complete());
    group.annotations_mut().push(Annotation::Property(AnnotationProperty::new(local("x"), Value::Simple(SimpleValue::Boolean(false)))));
    assert_eq!(group.annotations_len(), 1);
}

#[test]
fn reference_lists_hold_each_name_once() {
    let mut body = EntityBody::new(Member::new(id("id"), local("Id")));
    body.add_to_members(EntityMember::ByValue(Member::new(id("a"), local("Name"))));
    body.add_to_members(EntityMember::ByValue(Member::new(id("b"), local("Name"))));
    body.add_to_groups(EntityGroup::new(vec![EntityMember::ByReference(Member::new(id("c"), local("Person")))]));
    let types: Vec<String> = body.referenced_types().iter().map(|r| r.to_text()).collect();
    assert_eq!(types, vec!["Name", "Person"]);

    let mut group = EntityGroup::new(Vec::new());
    for _ in 0..2 {
        group.add_to_annotations(Annotation::Property(AnnotationProperty::new(
            local("label"),
            Value::Simple(SimpleValue::Boolean(true)),
        )));
    }
    assert_eq!(group.referenced_annotations().len(), 1);

    let mut statement = ImportStatement::new_module(id("m2"));
    statement.add_to_imports(sdml_core::modules::Import::Member(QualifiedIdentifier::new(id("m2"), id("Foo"))));
    statement.add_to_imports(sdml_core::modules::Import::Member(QualifiedIdentifier::new(id("m2"), id("Foo"))));
    assert_eq!(statement.imported_modules().len(), 1);
    assert_eq!(statement.imported_types().len(), 1);
}

#[test]
fn new_values_have_no_span() {
    assert!(RdfDef::class(id("A")).ts_span().is_none());
    assert!(RdfDef::individual(id("A")).ts_span().is_none());
    assert!(sdml_core::sequences::MappingVariable::new(id("k"), id("v")).ts_span().is_none());
    assert!(HeaderValue::new("a".to_string()) == HeaderValue::new("a".to_string()).with_source_span(Span::new(0, 1)));
    assert!(HeaderValue::new("a".to_string()) != HeaderValue::new("b".to_string()));
}

#[test]
fn extend_definitions_names_the_refused_definition() {
    let mut body = sdml_core::modules::ModuleBody::new();
    let result = body.extend_definitions(vec![
        Definition::Entity(EntityDef::new(id("A"))),
        Definition::Rdf(RdfDef::class(id("Refused"))),
    ]);
    let error = result.unwrap_err();
    assert_eq!(error.name().value(), "Refused");
    assert!(error.span().is_none());
    assert_eq!(error.file_id(), 0);
}
