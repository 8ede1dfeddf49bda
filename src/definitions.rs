//! The closed set of definitions that a module body holds, and the kinds that are not
//! entities or structures.
use crate::annotations::{
    collect_property_names, property_names, Annotation, AnnotationOnlyBody, AnnotationProperty,
    HasAnnotations,
};
use crate::entities::EntityDef;
use crate::identifiers::{
    distinct_references, reference_set_of, Identifier, IdentifierReference, QualifiedIdentifier, Span,
};
use crate::members::Member;
use crate::structures::{StructureBody, StructureDef};
use crate::values::Value;
use vstd::prelude::*;

verus! {

/// The annotation properties that an optional body names.
pub open spec fn optional_body_annotations(body: Option<AnnotationOnlyBody>) -> Seq<
    IdentifierReference,
> {
    match body {
        Some(b) => property_names(b.spec_annotations()),
        None => Seq::empty(),
    }
}

fn optional_body_referenced_annotations(body: &Option<AnnotationOnlyBody>) -> (r: Vec<
    IdentifierReference,
>)
    ensures
        r@ == optional_body_annotations(*body),
{
    match body {
        Some(b) => b.referenced_annotations_in_order(),
        None => Vec::new(),
    }
}

/// Corresponds to the grammar rule `data_type_def`: a named restriction of a base type.
/// A datatype is always complete.
#[derive(Debug)]
pub struct DatatypeDef {
    span: Option<Span>,
    name: Identifier,
    base_type: IdentifierReference,
    body: Option<AnnotationOnlyBody>,
}

impl DatatypeDef {
    pub closed spec fn spec_span(&self) -> Option<Span> {
        self.span
    }

    pub closed spec fn spec_name(&self) -> Identifier {
        self.name
    }

    pub closed spec fn spec_base_type(&self) -> IdentifierReference {
        self.base_type
    }

    pub closed spec fn spec_body(&self) -> Option<AnnotationOnlyBody> {
        self.body
    }

    pub fn new(name: Identifier, base_type: IdentifierReference) -> (r: Self)
        ensures
            r.spec_name() == name,
            r.spec_base_type() == base_type,
            r.spec_body() is None,
            r.spec_span() is None,
    {
        DatatypeDef { span: None, name, base_type, body: None }
    }

    pub fn with_body(self, body: AnnotationOnlyBody) -> (r: Self)
        ensures
            r.spec_body() == Some(body),
            r.spec_name() == self.spec_name(),
            r.spec_base_type() == self.spec_base_type(),
            r.spec_span() == self.spec_span(),
    {
        DatatypeDef { body: Some(body), ..self }
    }

    pub fn with_ts_span(self, ts_span: Span) -> (r: Self)
        ensures
            r.spec_span() == Some(ts_span),
            r.spec_name() == self.spec_name(),
            r.spec_base_type() == self.spec_base_type(),
            r.spec_body() == self.spec_body(),
    {
        DatatypeDef { span: Some(ts_span), ..self }
    }

    pub fn name(&self) -> (r: &Identifier)
        ensures
            *r == self.spec_name(),
    {
        &self.name
    }

    pub fn base_type(&self) -> (r: &IdentifierReference)
        ensures
            *r == self.spec_base_type(),
    {
        &self.base_type
    }

    pub fn body(&self) -> (r: Option<&AnnotationOnlyBody>)
        ensures
            r matches Some(b) ==> self.spec_body() == Some(*b),
            r is None <==> self.spec_body() is None,
    {
        self.body.as_ref()
    }
}

/// Corresponds to the grammar rule `enum_body`: annotations and named variants.
#[derive(Debug)]
pub struct EnumBody {
    span: Option<Span>,
    annotations: Vec<Annotation>,
    variants: Vec<Identifier>,
}

impl EnumBody {
    pub closed spec fn spec_annotations(&self) -> Seq<Annotation> {
        self.annotations@
    }

    pub closed spec fn spec_variants(&self) -> Seq<Identifier> {
        self.variants@
    }

    pub fn new(variants: Vec<Identifier>) -> (r: Self)
        ensures
            r.spec_variants() == variants@,
            r.spec_annotations().len() == 0,
    {
        EnumBody { span: None, annotations: Vec::new(), variants }
    }

    pub fn annotations(&self) -> (r: &Vec<Annotation>)
        ensures
            r@ == self.spec_annotations(),
    {
        &self.annotations
    }

    pub fn add_to_annotations(&mut self, value: Annotation)
        ensures
            final(self).spec_annotations() == old(self).spec_annotations().push(value),
            final(self).spec_variants() == old(self).spec_variants(),
    {
        self.annotations.push(value);
    }

    pub fn variants(&self) -> (r: &Vec<Identifier>)
        ensures
            r@ == self.spec_variants(),
    {
        &self.variants
    }
}

/// Corresponds to the grammar rule `enum_def`; complete when it has a body.
#[derive(Debug)]
pub struct EnumDef {
    span: Option<Span>,
    name: Identifier,
    body: Option<EnumBody>,
}

impl EnumDef {
    pub closed spec fn spec_span(&self) -> Option<Span> {
        self.span
    }

    pub closed spec fn spec_name(&self) -> Identifier {
        self.name
    }

    pub closed spec fn spec_body(&self) -> Option<EnumBody> {
        self.body
    }

    pub fn new(name: Identifier) -> (r: Self)
        ensures
            r.spec_name() == name,
            r.spec_body() is None,
            r.spec_span() is None,
    {
        EnumDef { span: None, name, body: None }
    }

    pub fn with_body(self, body: EnumBody) -> (r: Self)
        ensures
            r.spec_body() == Some(body),
            r.spec_name() == self.spec_name(),
            r.spec_span() == self.spec_span(),
    {
        EnumDef { body: Some(body), ..self }
    }

    pub fn name(&self) -> (r: &Identifier)
        ensures
            *r == self.spec_name(),
    {
        &self.name
    }

    pub fn body(&self) -> (r: Option<&EnumBody>)
        ensures
            r matches Some(b) ==> self.spec_body() == Some(*b),
            r is None <==> self.spec_body() is None,
    {
        self.body.as_ref()
    }
}

/// Corresponds to the grammar rule `event_def`: a structure raised by a source entity;
/// complete when it has a complete body.
#[derive(Debug)]
pub struct EventDef {
    span: Option<Span>,
    name: Identifier,
    event_source: IdentifierReference,
    body: Option<StructureBody>,
}

impl EventDef {
    pub closed spec fn spec_span(&self) -> Option<Span> {
        self.span
    }

    pub closed spec fn spec_name(&self) -> Identifier {
        self.name
    }

    pub closed spec fn spec_event_source(&self) -> IdentifierReference {
        self.event_source
    }

    pub closed spec fn spec_body(&self) -> Option<StructureBody> {
        self.body
    }

    pub fn new(name: Identifier, event_source: IdentifierReference) -> (r: Self)
        ensures
            r.spec_name() == name,
            r.spec_event_source() == event_source,
            r.spec_body() is None,
            r.spec_span() is None,
    {
        EventDef { span: None, name, event_source, body: None }
    }

    pub fn with_body(self, body: StructureBody) -> (r: Self)
        ensures
            r.spec_body() == Some(body),
            r.spec_name() == self.spec_name(),
            r.spec_event_source() == self.spec_event_source(),
            r.spec_span() == self.spec_span(),
    {
        EventDef { body: Some(body), ..self }
    }

    pub fn name(&self) -> (r: &Identifier)
        ensures
            *r == self.spec_name(),
    {
        &self.name
    }

    pub fn event_source(&self) -> (r: &IdentifierReference)
        ensures
            *r == self.spec_event_source(),
    {
        &self.event_source
    }

    pub fn body(&self) -> (r: Option<&StructureBody>)
        ensures
            r matches Some(b) ==> self.spec_body() == Some(*b),
            r is None <==> self.spec_body() is None,
    {
        self.body.as_ref()
    }

    pub fn set_body(&mut self, body: StructureBody)
        ensures
            final(self).spec_body() == Some(body),
            final(self).spec_name() == old(self).spec_name(),
            final(self).spec_event_source() == old(self).spec_event_source(),
            final(self).spec_span() == old(self).spec_span(),
    {
        self.body = Some(body);
    }
}

/// Corresponds to the grammar rule `property_def`: a member defined once for use in many
/// places; complete when its member is.
#[derive(Debug)]
pub struct PropertyDef {
    span: Option<Span>,
    member: Member,
}

impl PropertyDef {
    pub closed spec fn spec_span(&self) -> Option<Span> {
        self.span
    }

    pub closed spec fn spec_member(&self) -> Member {
        self.member
    }

    pub fn new(member: Member) -> (r: Self)
        ensures
            r.spec_member() == member,
            r.spec_span() is None,
    {
        PropertyDef { span: None, member }
    }

    pub fn name(&self) -> (r: &Identifier)
        ensures
            *r == self.spec_member().spec_name(),
    {
        self.member.name()
    }

    pub fn member(&self) -> (r: &Member)
        ensures
            *r == self.spec_member(),
    {
        &self.member
    }
}

/// Corresponds to the grammar rules `rdf_class_def` and `rdf_property_def`: a definition
/// written as RDF annotations, allowed in library modules only. It is always complete.
#[derive(Debug)]
pub struct RdfDef {
    span: Option<Span>,
    name: Identifier,
    body: AnnotationOnlyBody,
}

impl RdfDef {
    pub closed spec fn spec_span(&self) -> Option<Span> {
        self.span
    }

    pub closed spec fn spec_name(&self) -> Identifier {
        self.name
    }

    pub closed spec fn spec_body(&self) -> AnnotationOnlyBody {
        self.body
    }

    /// Whether the body types the definition as `module:member` through `rdf:type`.
    pub open spec fn spec_has_type(&self, module: Seq<char>, member: Seq<char>) -> bool {
        self.spec_body().spec_has_qualified_property("rdf"@, "type"@, module, member)
    }

    fn new(name: Identifier) -> (r: Self)
        ensures
            r.spec_name() == name,
            r.spec_body().spec_annotations().len() == 0,
            r.spec_span() is None,
    {
        RdfDef { span: None, name, body: AnnotationOnlyBody::new() }
    }

    /// Adds the annotation `rdf:type module:member`.
    fn with_type(self, module: &str, member: &str) -> (r: Self)
        ensures
            r.spec_name() == self.spec_name(),
            r.spec_span() == self.spec_span(),
            r.spec_body().spec_annotations().len() == self.spec_body().spec_annotations().len()
                + 1,
            forall|i: int|
                0 <= i < self.spec_body().spec_annotations().len()
                    ==> r.spec_body().spec_annotations()[i]
                    == self.spec_body().spec_annotations()[i],
            r.spec_has_type(module@, member@),
    {
        let property = AnnotationProperty::new(
            IdentifierReference::QualifiedIdentifier(
                QualifiedIdentifier::new(
                    Identifier::new_unchecked("rdf"),
                    Identifier::new_unchecked("type"),
                ),
            ),
            Value::Reference(
                IdentifierReference::QualifiedIdentifier(
                    QualifiedIdentifier::new(
                        Identifier::new_unchecked(module),
                        Identifier::new_unchecked(member),
                    ),
                ),
            ),
        );
        let mut body = self.body;
        let ghost old_len = body.spec_annotations().len();
        body.add_to_annotations(Annotation::Property(property));
        let r = RdfDef { body, ..self };
        assert(crate::annotations::is_qualified_property(
            r.spec_body().spec_annotations()[old_len as int],
            "rdf"@,
            "type"@,
            module@,
            member@,
        ));
        r
    }

    pub fn ts_span(&self) -> (r: Option<Span>)
        ensures
            r == self.spec_span(),
    {
        self.span
    }

    /// An RDF class: typed `rdfs:Class`.
    pub fn class(name: Identifier) -> (r: Self)
        ensures
            r.spec_name() == name,
            r.spec_span() is None,
            r.spec_has_type("rdfs"@, "Class"@),
            r.spec_body().spec_annotations().len() == 1,
    {
        Self::new(name).with_type("rdfs", "Class")
    }

    pub fn is_class(&self) -> (r: bool)
        ensures
            r == self.spec_has_type("rdfs"@, "Class"@),
    {
        self.body.has_qualified_property("rdf", "type", "rdfs", "Class")
    }

    /// An RDF datatype: typed `rdfs:Datatype`.
    pub fn datatype(name: Identifier) -> (r: Self)
        ensures
            r.spec_name() == name,
            r.spec_span() is None,
            r.spec_has_type("rdfs"@, "Datatype"@),
            r.spec_body().spec_annotations().len() == 1,
    {
        Self::new(name).with_type("rdfs", "Datatype")
    }

    pub fn is_datatype(&self) -> (r: bool)
        ensures
            r == self.spec_has_type("rdfs"@, "Datatype"@),
    {
        self.body.has_qualified_property("rdf", "type", "rdfs", "Datatype")
    }

    /// An RDF property: typed `rdf:Property`.
    pub fn property(name: Identifier) -> (r: Self)
        ensures
            r.spec_name() == name,
            r.spec_span() is None,
            r.spec_has_type("rdf"@, "Property"@),
            r.spec_body().spec_annotations().len() == 1,
    {
        Self::new(name).with_type("rdf", "Property")
    }

    pub fn is_property(&self) -> (r: bool)
        ensures
            r == self.spec_has_type("rdf"@, "Property"@),
    {
        self.body.has_qualified_property("rdf", "type", "rdf", "Property")
    }

    /// An individual: no type is given.
    pub fn individual(name: Identifier) -> (r: Self)
        ensures
            r.spec_name() == name,
            r.spec_span() is None,
            r.spec_body().spec_annotations().len() == 0,
    {
        Self::new(name)
    }

    pub fn name(&self) -> (r: &Identifier)
        ensures
            *r == self.spec_name(),
    {
        &self.name
    }

    pub fn body(&self) -> (r: &AnnotationOnlyBody)
        ensures
            *r == self.spec_body(),
    {
        &self.body
    }

    pub fn add_to_annotations(&mut self, value: Annotation)
        ensures
            final(self).spec_body().spec_annotations() == old(
                self,
            ).spec_body().spec_annotations().push(value),
            final(self).spec_name() == old(self).spec_name(),
    {
        self.body.add_to_annotations(value);
    }
}

/// Corresponds to the grammar rule `type_class_def`, allowed in library modules only;
/// complete when it has a body.
#[derive(Debug)]
pub struct TypeClassDef {
    span: Option<Span>,
    name: Identifier,
    body: Option<AnnotationOnlyBody>,
}

impl TypeClassDef {
    pub closed spec fn spec_span(&self) -> Option<Span> {
        self.span
    }

    pub closed spec fn spec_name(&self) -> Identifier {
        self.name
    }

    pub closed spec fn spec_body(&self) -> Option<AnnotationOnlyBody> {
        self.body
    }

    pub fn new(name: Identifier) -> (r: Self)
        ensures
            r.spec_name() == name,
            r.spec_body() is None,
            r.spec_span() is None,
    {
        TypeClassDef { span: None, name, body: None }
    }

    pub fn with_body(self, body: AnnotationOnlyBody) -> (r: Self)
        ensures
            r.spec_body() == Some(body),
            r.spec_name() == self.spec_name(),
            r.spec_span() == self.spec_span(),
    {
        TypeClassDef { body: Some(body), ..self }
    }

    pub fn body(&self) -> (r: Option<&AnnotationOnlyBody>)
        ensures
            r matches Some(b) ==> self.spec_body() == Some(*b),
            r is None <==> self.spec_body() is None,
    {
        self.body.as_ref()
    }

    pub fn name(&self) -> (r: &Identifier)
        ensures
            *r == self.spec_name(),
    {
        &self.name
    }
}

/// Corresponds to the grammar rule `union_body`: annotations and the types united.
#[derive(Debug)]
pub struct UnionBody {
    span: Option<Span>,
    annotations: Vec<Annotation>,
    variants: Vec<IdentifierReference>,
}

impl UnionBody {
    pub closed spec fn spec_annotations(&self) -> Seq<Annotation> {
        self.annotations@
    }

    pub closed spec fn spec_variants(&self) -> Seq<IdentifierReference> {
        self.variants@
    }

    pub fn new(variants: Vec<IdentifierReference>) -> (r: Self)
        ensures
            r.spec_variants() == variants@,
            r.spec_annotations().len() == 0,
    {
        UnionBody { span: None, annotations: Vec::new(), variants }
    }

    pub fn annotations(&self) -> (r: &Vec<Annotation>)
        ensures
            r@ == self.spec_annotations(),
    {
        &self.annotations
    }

    pub fn variants(&self) -> (r: &Vec<IdentifierReference>)
        ensures
            r@ == self.spec_variants(),
    {
        &self.variants
    }
}

/// Corresponds to the grammar rule `union_def`; complete when it has a body.
#[derive(Debug)]
pub struct UnionDef {
    span: Option<Span>,
    name: Identifier,
    body: Option<UnionBody>,
}

impl UnionDef {
    pub closed spec fn spec_span(&self) -> Option<Span> {
        self.span
    }

    pub closed spec fn spec_name(&self) -> Identifier {
        self.name
    }

    pub closed spec fn spec_body(&self) -> Option<UnionBody> {
        self.body
    }

    pub fn new(name: Identifier) -> (r: Self)
        ensures
            r.spec_name() == name,
            r.spec_body() is None,
            r.spec_span() is None,
    {
        UnionDef { span: None, name, body: None }
    }

    pub fn with_body(self, body: UnionBody) -> (r: Self)
        ensures
            r.spec_body() == Some(body),
            r.spec_name() == self.spec_name(),
            r.spec_span() == self.spec_span(),
    {
        UnionDef { body: Some(body), ..self }
    }

    pub fn name(&self) -> (r: &Identifier)
        ensures
            *r == self.spec_name(),
    {
        &self.name
    }

    pub fn body(&self) -> (r: Option<&UnionBody>)
        ensures
            r matches Some(b) ==> self.spec_body() == Some(*b),
            r is None <==> self.spec_body() is None,
    {
        self.body.as_ref()
    }
}

/// Corresponds to the grammar rule `definition`.
#[derive(Debug)]
pub enum Definition {
    Datatype(DatatypeDef),
    Entity(EntityDef),
    Enum(EnumDef),
    Event(EventDef),
    Property(PropertyDef),
    Rdf(RdfDef),
    Structure(StructureDef),
    TypeClass(TypeClassDef),
    Union(UnionDef),
}

impl Definition {
    pub open spec fn spec_name(&self) -> Identifier {
        match self {
            Definition::Datatype(d) => d.spec_name(),
            Definition::Entity(d) => d.spec_name(),
            Definition::Enum(d) => d.spec_name(),
            Definition::Event(d) => d.spec_name(),
            Definition::Property(d) => d.spec_member().spec_name(),
            Definition::Rdf(d) => d.spec_name(),
            Definition::Structure(d) => d.spec_name(),
            Definition::TypeClass(d) => d.spec_name(),
            Definition::Union(d) => d.spec_name(),
        }
    }

    pub open spec fn spec_span(&self) -> Option<Span> {
        match self {
            Definition::Datatype(d) => d.spec_span(),
            Definition::Entity(d) => d.spec_span(),
            Definition::Enum(d) => d.spec_span(),
            Definition::Event(d) => d.spec_span(),
            Definition::Property(d) => d.spec_span(),
            Definition::Rdf(d) => d.spec_span(),
            Definition::Structure(d) => d.spec_span(),
            Definition::TypeClass(d) => d.spec_span(),
            Definition::Union(d) => d.spec_span(),
        }
    }

    /// Whether the definition has every body it needs: datatypes and RDF definitions
    /// always do; properties need a complete member; every other kind needs a body.
    pub open spec fn spec_complete(&self) -> bool {
        match self {
            Definition::Datatype(_) => true,
            Definition::Entity(d) => d.spec_complete(),
            Definition::Enum(d) => d.spec_body() is Some,
            Definition::Event(d) => d.spec_body() is Some,
            Definition::Property(d) => d.spec_member().spec_complete(),
            Definition::Rdf(_) => true,
            Definition::Structure(d) => d.spec_complete(),
            Definition::TypeClass(d) => d.spec_body() is Some,
            Definition::Union(d) => d.spec_body() is Some,
        }
    }

    /// Kinds that only a library module may define.
    pub open spec fn spec_is_library_only(&self) -> bool {
        self is Rdf || self is TypeClass
    }

    pub open spec fn spec_referenced_types(&self) -> Seq<IdentifierReference> {
        match self {
            Definition::Datatype(d) => seq![d.spec_base_type()],
            Definition::Entity(d) => d.spec_referenced_types(),
            Definition::Enum(_) => Seq::empty(),
            Definition::Event(d) => seq![d.spec_event_source()] + match d.spec_body() {
                Some(b) => b.spec_referenced_types(),
                None => Seq::empty(),
            },
            Definition::Property(d) => d.spec_member().spec_referenced_types(),
            Definition::Rdf(_) => Seq::empty(),
            Definition::Structure(d) => d.spec_referenced_types(),
            Definition::TypeClass(_) => Seq::empty(),
            Definition::Union(d) => match d.spec_body() {
                Some(b) => b.spec_variants(),
                None => Seq::empty(),
            },
        }
    }

    pub open spec fn spec_referenced_annotations(&self) -> Seq<IdentifierReference> {
        match self {
            Definition::Datatype(d) => optional_body_annotations(d.spec_body()),
            Definition::Entity(d) => d.spec_referenced_annotations(),
            Definition::Enum(d) => match d.spec_body() {
                Some(b) => property_names(b.spec_annotations()),
                None => Seq::empty(),
            },
            Definition::Event(d) => match d.spec_body() {
                Some(b) => b.spec_referenced_annotations(),
                None => Seq::empty(),
            },
            Definition::Property(d) => d.spec_member().spec_referenced_annotations(),
            Definition::Rdf(d) => property_names(d.spec_body().spec_annotations()),
            Definition::Structure(d) => d.spec_referenced_annotations(),
            Definition::TypeClass(d) => optional_body_annotations(d.spec_body()),
            Definition::Union(d) => match d.spec_body() {
                Some(b) => property_names(b.spec_annotations()),
                None => Seq::empty(),
            },
        }
    }

    pub fn name(&self) -> (r: &Identifier)
        ensures
            *r == self.spec_name(),
    {
        match self {
            Definition::Datatype(d) => d.name(),
            Definition::Entity(d) => d.name(),
            Definition::Enum(d) => d.name(),
            Definition::Event(d) => d.name(),
            Definition::Property(d) => d.name(),
            Definition::Rdf(d) => d.name(),
            Definition::Structure(d) => d.name(),
            Definition::TypeClass(d) => d.name(),
            Definition::Union(d) => d.name(),
        }
    }

    pub fn ts_span(&self) -> (r: Option<Span>)
        ensures
            r == self.spec_span(),
    {
        match self {
            Definition::Datatype(d) => d.span,
            Definition::Entity(d) => d.ts_span(),
            Definition::Enum(d) => d.span,
            Definition::Event(d) => d.span,
            Definition::Property(d) => d.span,
            Definition::Rdf(d) => d.span,
            Definition::Structure(d) => d.ts_span(),
            Definition::TypeClass(d) => d.span,
            Definition::Union(d) => d.span,
        }
    }

    pub fn is_complete(&self) -> (r: bool)
        ensures
            r == self.spec_complete(),
    {
        match self {
            Definition::Datatype(_) => true,
            Definition::Entity(d) => d.is_complete(),
            Definition::Enum(d) => d.body.is_some(),
            Definition::Event(d) => d.body.is_some(),
            Definition::Property(d) => d.member.is_complete(),
            Definition::Rdf(_) => true,
            Definition::Structure(d) => d.is_complete(),
            Definition::TypeClass(d) => d.body.is_some(),
            Definition::Union(d) => d.body.is_some(),
        }
    }

    pub fn is_library_only(&self) -> (r: bool)
        ensures
            r == self.spec_is_library_only(),
    {
        matches!(self, Definition::Rdf(_) | Definition::TypeClass(_))
    }

    /// The types that the definition refers to, in order of appearance.
    pub fn referenced_types(&self) -> (r: Vec<IdentifierReference>)
        ensures
            reference_set_of(r@, self.spec_referenced_types()),
    {
        distinct_references(self.referenced_types_in_order())
    }

    /// In order of appearance, repeats kept.
    pub(crate) fn referenced_types_in_order(&self) -> (r: Vec<IdentifierReference>)
        ensures
            r@ == self.spec_referenced_types(),
    {
        match self {
            Definition::Datatype(d) => {
                let mut r: Vec<IdentifierReference> = Vec::new();
                r.push(d.base_type.duplicate());
                assert(r@ =~= seq![d.spec_base_type()]);
                r
            },
            Definition::Entity(d) => d.referenced_types_in_order(),
            Definition::Enum(_) => Vec::new(),
            Definition::Event(d) => {
                let mut r: Vec<IdentifierReference> = Vec::new();
                r.push(d.event_source.duplicate());
                if let Some(b) = &d.body {
                    let mut more = b.referenced_types_in_order();
                    r.append(&mut more);
                }
                assert(r@ =~= self.spec_referenced_types());
                r
            },
            Definition::Property(d) => d.member.referenced_types_in_order(),
            Definition::Rdf(_) => Vec::new(),
            Definition::Structure(d) => d.referenced_types_in_order(),
            Definition::TypeClass(_) => Vec::new(),
            Definition::Union(d) => match &d.body {
                Some(b) => {
                    let mut r: Vec<IdentifierReference> = Vec::new();
                    let mut i: usize = 0;
                    while i < b.variants.len()
                        invariant
                            i <= b.variants@.len(),
                            r@ == b.variants@.subrange(0, i as int),
                        decreases b.variants@.len() - i,
                    {
                        r.push(b.variants[i].duplicate());
                        assert(r@ =~= b.variants@.subrange(0, i + 1));
                        i = i + 1;
                    }
                    assert(r@ =~= b.variants@);
                    r
                },
                None => Vec::new(),
            },
        }
    }

    /// The annotation properties that the definition names, in order of appearance.
    pub fn referenced_annotations(&self) -> (r: Vec<IdentifierReference>)
        ensures
            reference_set_of(r@, self.spec_referenced_annotations()),
    {
        distinct_references(self.referenced_annotations_in_order())
    }

    /// In order of appearance, repeats kept.
    pub(crate) fn referenced_annotations_in_order(&self) -> (r: Vec<IdentifierReference>)
        ensures
            r@ == self.spec_referenced_annotations(),
    {
        match self {
            Definition::Datatype(d) => optional_body_referenced_annotations(&d.body),
            Definition::Entity(d) => d.referenced_annotations_in_order(),
            Definition::Enum(d) => match &d.body {
                Some(b) => {
                    let mut r: Vec<IdentifierReference> = Vec::new();
                    collect_property_names(&b.annotations, &mut r);
                    assert(r@ =~= self.spec_referenced_annotations());
                    r
                },
                None => Vec::new(),
            },
            Definition::Event(d) => match &d.body {
                Some(b) => b.referenced_annotations_in_order(),
                None => Vec::new(),
            },
            Definition::Property(d) => d.member.referenced_annotations_in_order(),
            Definition::Rdf(d) => d.body.referenced_annotations_in_order(),
            Definition::Structure(d) => d.referenced_annotations_in_order(),
            Definition::TypeClass(d) => optional_body_referenced_annotations(&d.body),
            Definition::Union(d) => match &d.body {
                Some(b) => {
                    let mut r: Vec<IdentifierReference> = Vec::new();
                    collect_property_names(&b.annotations, &mut r);
                    assert(r@ =~= self.spec_referenced_annotations());
                    r
                },
                None => Vec::new(),
            },
        }
    }
}

impl HasAnnotations for EnumBody {
    open spec fn annotations_view(&self) -> Seq<Annotation> {
        self.spec_annotations()
    }

    fn annotations(&self) -> (r: &Vec<Annotation>) {
        &self.annotations
    }
}

impl HasAnnotations for UnionBody {
    open spec fn annotations_view(&self) -> Seq<Annotation> {
        self.spec_annotations()
    }

    fn annotations(&self) -> (r: &Vec<Annotation>) {
        &self.annotations
    }
}

} // verus!
