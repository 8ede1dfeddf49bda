use sdml_core::annotations::{Annotation, AnnotationOnlyBody, AnnotationProperty, HasAnnotations};
use sdml_core::constraints::{Constraint, ConstraintBody, ControlledLanguageTag, FormalConstraint};
use sdml_core::definitions::{DatatypeDef, Definition, EnumBody, EnumDef, RdfDef, UnionBody, UnionDef};
use sdml_core::entities::{EntityBody, EntityDef};
use sdml_core::identifiers::{Identifier, IdentifierReference, QualifiedIdentifier};
use sdml_core::members::Member;
use sdml_core::modules::{HeaderValue, Import, ImportStatement, Module, ModuleImport, ModuleStore};
use sdml_core::sequences::{MappingVariable, NamedVariables, QuantifiedSentence, SequenceBuilder, Variables};
use sdml_core::values::{LanguageString, SimpleValue, Value};
use sdml_core::diagnostics::DiagnosticCode;

fn id(s: &str) -> Identifier {
    Identifier::new_unchecked(s)
}

fn qualified(m: &str, n: &str) -> IdentifierReference {
    IdentifierReference::QualifiedIdentifier(QualifiedIdentifier::new(id(m), id(n)))
}

fn label(m: &str, n: &str, text: &str) -> Annotation {
    Annotation::Property(AnnotationProperty::new(
        qualified(m, n),
        Value::Simple(SimpleValue::String(LanguageString::new(text.to_string(), Some("en".to_string())))),
    ))
}

#[test]
fn labels_come_from_conventional_properties() {
    let body = AnnotationOnlyBody::from_annotations(vec![
        label("skos", "prefLabel", "Person"),
        label("skos", "altLabel", "Human"),
        label("skos", "altLabel", "Individual"),
        label("dc", "description", "A person."),
        label("skos", "definition", "Someone."),
        Annotation::Property(AnnotationProperty::new(qualified("skos", "prefLabel"), Value::Simple(SimpleValue::Unsigned(3)))),
        Annotation::Constraint(Constraint::new(id("c"), ConstraintBody::Formal(FormalConstraint::new("true".to_string())))),
    ]);
    let preferred: Vec<&str> = body.preferred_label().iter().map(|l| l.value().as_str()).collect();
    assert_eq!(preferred, vec!["Person"]);
    let alternates: Vec<&str> = body.alternate_labels().iter().map(|l| l.value().as_str()).collect();
    assert_eq!(alternates, vec!["Human", "Individual"]);
    assert_eq!(body.descriptions()[0].value(), "A person.");
    assert_eq!(body.definitions()[0].value(), "Someone.");
    assert!(body.has_annotation_properties());
    assert!(body.has_constraints());
    assert!(!AnnotationOnlyBody::new().has_constraints());
    assert!(!AnnotationOnlyBody::new().has_annotation_properties());
}

#[test]
fn named_variables_are_a_set() {
    let vars = NamedVariables::new(vec![id("x"), id("y"), id("x"), id("z"), id("y")]);
    let names: Vec<&str> = vars.names().iter().map(|n| n.value().as_str()).collect();
    assert_eq!(names, vec!["x", "y", "z"]);
}

#[test]
fn sequence_builder_accessors() {
    let mut builder = SequenceBuilder::new(
        Variables::Named(NamedVariables::new(vec![id("x")])),
        QuantifiedSentence::new("x > 0".to_string()),
    );
    assert!(builder.variables().is_named_set());
    assert!(builder.variables().as_mapping().is_none());
    let mut mapping = MappingVariable::new(id("k"), id("v"));
    mapping.set_range(id("w"));
    mapping.set_domain(id("j"));
    assert_eq!(mapping.domain().value(), "j");
    assert_eq!(mapping.range().value(), "w");
    builder.set_variables(Variables::Mapping(mapping));
    assert!(builder.variables().is_mapping());
    assert_eq!(builder.variables().as_mapping().unwrap().range().value(), "w");
    assert_eq!(builder.body().text(), "x > 0");
}

#[test]
fn module_accessors_walk_every_definition() {
    let mut m = Module::empty(id("m1"));
    m.add_to_imports(ImportStatement::new_module(id("m2")));
    m.add_to_imports(ImportStatement::new_member(QualifiedIdentifier::new(id("m3"), id("Foo"))));
    m.add_to_definitions(Definition::Datatype(DatatypeDef::new(id("Name"), qualified("xsd", "string")))).unwrap();
    let body = EntityBody::new(Member::new(id("id"), IdentifierReference::Identifier(id("Name"))));
    m.add_to_definitions(Definition::Entity(EntityDef::new(id("Person")).with_body(body))).unwrap();
    m.add_to_definitions(Definition::Enum(EnumDef::new(id("Color")).with_body(EnumBody::new(vec![id("Red")])))).unwrap();
    m.add_to_definitions(Definition::Union(UnionDef::new(id("Either")).with_body(UnionBody::new(vec![
        IdentifierReference::Identifier(id("Person")),
        IdentifierReference::Identifier(id("Color")),
    ])))).unwrap();

    let modules: Vec<String> = m.imported_modules().iter().map(|i| i.value().clone()).collect();
    assert_eq!(modules, vec!["m2", "m3"]);
    let types = m.imported_types();
    assert_eq!(types.len(), 1);
    assert_eq!(types[0].member().value(), "Foo");
    let names: Vec<String> = m.defined_names().iter().map(|i| i.value().clone()).collect();
    assert_eq!(names, vec!["Name", "Person", "Color", "Either"]);
    let referenced = m.referenced_types();
    assert_eq!(referenced.len(), 3);
    assert!(referenced[0].is_qualified_as("xsd", "string"));
    assert!(m.referenced_annotations().is_empty());
    assert_eq!(m.body().entity_definitions().len(), 1);
    assert_eq!(m.body().entity_definitions()[0].name().value(), "Person");
    assert_eq!(m.body().datatype_definitions().len(), 1);
    assert_eq!(m.body().enum_definitions().len(), 1);
    assert_eq!(m.body().union_definitions().len(), 1);
    assert!(m.body().structure_definitions().is_empty());
    assert!(m.body().rdf_definitions().is_empty());
    assert!(m.body().get_definition(&id("Color")).is_some());
    assert!(m.body().get_definition(&id("Colour")).is_none());
}

#[test]
fn enum_variant_and_union_variant_checks() {
    let store = ModuleStore::new();
    let mut m = Module::empty(id("m1"));
    m.add_to_definitions(Definition::Enum(EnumDef::new(id("Color")).with_body(EnumBody::new(vec![id("red"), id("Green")])))).unwrap();
    m.add_to_definitions(Definition::Union(UnionDef::new(id("Either")).with_body(UnionBody::new(vec![
        IdentifierReference::Identifier(id("Color")),
        IdentifierReference::Identifier(id("Missing")),
    ])))).unwrap();
    let mut out = Vec::new();
    m.validate(&store, true, &mut out);
    let codes: Vec<DiagnosticCode> = out.iter().map(|d| d.code()).collect();
    assert_eq!(codes, vec![DiagnosticCode::IdentifierNotPreferredCase, DiagnosticCode::TypeDefinitionNotFound]);
}

#[test]
fn library_module_holds_rdf_definitions() {
    let mut rdf = Module::empty(id("rdf"));
    rdf.add_to_definitions(Definition::Rdf(RdfDef::property(id("type")))).unwrap();
    assert_eq!(rdf.body().rdf_definitions().len(), 1);
    assert!(rdf.body().rdf_definitions()[0].is_property());
}

#[test]
fn checked_language_tag_follows_the_given_answer() {
    assert!(ControlledLanguageTag::from_checked("whatever", true).is_ok());
    assert_eq!(ControlledLanguageTag::from_checked("en", false).unwrap_err().value(), "en");
}

#[test]
fn imported_module_versions_keep_the_later_import() {
    let mut statement = ImportStatement::new_module_with_version_uri(id("m2"), HeaderValue::new("v1".to_string()));
    statement.add_to_imports(Import::Member(QualifiedIdentifier::new(id("m3"), id("Foo"))));
    statement.add_to_imports(Import::Module(ModuleImport::new(id("m2")).with_version_uri(HeaderValue::new("v2".to_string()))));
    let versions = statement.imported_module_versions();
    assert_eq!(versions.len(), 2);
    assert_eq!(versions[0].0.value(), "m2");
    assert_eq!(versions[0].1.as_ref().unwrap().value(), "v2");
    assert_eq!(versions[1].0.value(), "m3");
    assert!(versions[1].1.is_none());

    let mut m = Module::empty(id("m1"));
    m.add_to_imports(statement);
    m.add_to_imports(ImportStatement::new_module(id("m2")));
    let versions = m.imported_module_versions();
    assert_eq!(versions.len(), 2);
    assert!(versions[0].1.is_none());
}
