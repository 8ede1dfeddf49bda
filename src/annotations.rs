//! Annotations: properties (a name and a value) and constraints, attached to modules,
//! definitions and members.
use crate::constraints::{constraint_diagnostics, Constraint};
use crate::concat::{flatten, lemma_flatten_all, lemma_flatten_prefix};
use crate::diagnostics::{Diagnostic, FileId};
use crate::identifiers::{distinct_references, reference_set_of, IdentifierReference, Span};
use crate::values::{LanguageString, SimpleValue, Value};
use vstd::prelude::*;

verus! {

/// Corresponds to the grammar rule `annotation_property`.
#[derive(Debug)]
pub struct AnnotationProperty {
    span: Option<Span>,
    name_reference: IdentifierReference,
    value: Value,
}

impl AnnotationProperty {
    pub closed spec fn spec_span(&self) -> Option<Span> {
        self.span
    }

    pub closed spec fn spec_name_reference(&self) -> IdentifierReference {
        self.name_reference
    }

    pub closed spec fn spec_value(&self) -> Value {
        self.value
    }

    pub fn new(name_reference: IdentifierReference, value: Value) -> (r: Self)
        ensures
            r.spec_name_reference() == name_reference,
            r.spec_value() == value,
            r.spec_span() is None,
    {
        AnnotationProperty { span: None, name_reference, value }
    }

    pub fn with_ts_span(self, ts_span: Span) -> (r: Self)
        ensures
            r.spec_span() == Some(ts_span),
            r.spec_name_reference() == self.spec_name_reference(),
            r.spec_value() == self.spec_value(),
    {
        AnnotationProperty { span: Some(ts_span), ..self }
    }

    pub fn ts_span(&self) -> (r: Option<Span>)
        ensures
            r == self.spec_span(),
    {
        self.span
    }

    pub fn name_reference(&self) -> (r: &IdentifierReference)
        ensures
            *r == self.spec_name_reference(),
    {
        &self.name_reference
    }

    pub fn value(&self) -> (r: &Value)
        ensures
            *r == self.spec_value(),
    {
        &self.value
    }

    pub fn set_value(&mut self, value: Value)
        ensures
            final(self).spec_value() == value,
            final(self).spec_name_reference() == old(self).spec_name_reference(),
            final(self).spec_span() == old(self).spec_span(),
    {
        self.value = value;
    }
}

/// Corresponds to the grammar rule `annotation`.
#[derive(Debug)]
pub enum Annotation {
    Property(AnnotationProperty),
    Constraint(Constraint),
}

/// An annotation property is always complete and its value is not checked here; a
/// constraint is checked only when constraints are.
pub open spec fn annotation_diagnostics(
    a: Annotation,
    file_id: FileId,
    check_constraints: bool,
) -> Seq<Diagnostic> {
    match a {
        Annotation::Property(_) => Seq::empty(),
        Annotation::Constraint(c) => if check_constraints {
            constraint_diagnostics(c, file_id)
        } else {
            Seq::empty()
        },
    }
}

pub open spec fn annotations_diagnostics(
    s: Seq<Annotation>,
    file_id: FileId,
    check_constraints: bool,
) -> Seq<Diagnostic> {
    flatten(s, annotation_diagnostics_fn(file_id, check_constraints))
}

pub open spec fn annotation_diagnostics_fn(file_id: FileId, check_constraints: bool) -> spec_fn(
    Annotation,
) -> Seq<Diagnostic> {
    |a: Annotation| annotation_diagnostics(a, file_id, check_constraints)
}

pub open spec fn property_names_fn() -> spec_fn(Annotation) -> Seq<IdentifierReference> {
    |a: Annotation|
        match a {
            Annotation::Property(p) => seq![p.spec_name_reference()],
            Annotation::Constraint(_) => Seq::empty(),
        }
}

/// The names of the annotation properties of `s`, in order.
pub open spec fn property_names(s: Seq<Annotation>) -> Seq<IdentifierReference> {
    flatten(s, property_names_fn())
}

impl Annotation {
    pub fn is_annotation_property(&self) -> (r: bool)
        ensures
            r == (self is Property),
    {
        matches!(self, Annotation::Property(_))
    }

    pub fn as_annotation_property(&self) -> (r: Option<&AnnotationProperty>)
        ensures
            r matches Some(p) ==> *self == Annotation::Property(*p),
            r is None <==> self is Constraint,
    {
        match self {
            Annotation::Property(p) => Some(p),
            Annotation::Constraint(_) => None,
        }
    }

    pub fn is_constraint(&self) -> (r: bool)
        ensures
            r == (self is Constraint),
    {
        matches!(self, Annotation::Constraint(_))
    }

    pub fn as_constraint(&self) -> (r: Option<&Constraint>)
        ensures
            r matches Some(c) ==> *self == Annotation::Constraint(*c),
            r is None <==> self is Property,
    {
        match self {
            Annotation::Property(_) => None,
            Annotation::Constraint(c) => Some(c),
        }
    }

    /// Annotations are always complete.
    pub fn is_complete(&self) -> (r: bool)
        ensures
            r,
    {
        true
    }

    pub fn validate(&self, file_id: FileId, check_constraints: bool, out: &mut Vec<Diagnostic>)
        ensures
            final(out)@ == old(out)@ + annotation_diagnostics(*self, file_id, check_constraints),
    {
        match self {
            Annotation::Property(_) => {
                assert(out@ =~= out@ + Seq::<Diagnostic>::empty());
            },
            Annotation::Constraint(c) => {
                if check_constraints {
                    c.validate(file_id, out);
                } else {
                    assert(out@ =~= out@ + Seq::<Diagnostic>::empty());
                }
            },
        }
    }
}

/// Validates each annotation of `annotations` in order.
pub fn validate_annotations(
    annotations: &Vec<Annotation>,
    file_id: FileId,
    check_constraints: bool,
    out: &mut Vec<Diagnostic>,
)
    ensures
        final(out)@ == old(out)@ + annotations_diagnostics(
            annotations@,
            file_id,
            check_constraints,
        ),
{
    let ghost f = annotation_diagnostics_fn(file_id, check_constraints);
    let ghost start = out@;
    let mut i: usize = 0;
    while i < annotations.len()
        invariant
            i <= annotations@.len(),
            f == annotation_diagnostics_fn(file_id, check_constraints),
            out@ == start + flatten(annotations@.subrange(0, i as int), f),
        decreases annotations@.len() - i,
    {
        proof {
            lemma_flatten_prefix(annotations@, i as int, f);
        }
        annotations[i].validate(file_id, check_constraints, out);
        assert(out@ =~= start + flatten(annotations@.subrange(0, i + 1), f));
        i = i + 1;
    }
    proof {
        lemma_flatten_all(annotations@, f);
    }
}

/// Appends the names of the annotation properties of `annotations` to `names`.
pub fn collect_property_names(annotations: &Vec<Annotation>, names: &mut Vec<IdentifierReference>)
    ensures
        final(names)@ == old(names)@ + property_names(annotations@),
{
    let ghost start = names@;
    let mut i: usize = 0;
    while i < annotations.len()
        invariant
            i <= annotations@.len(),
            names@ == start + property_names(annotations@.subrange(0, i as int)),
        decreases annotations@.len() - i,
    {
        proof {
            lemma_flatten_prefix(annotations@, i as int, property_names_fn());
        }
        match &annotations[i] {
            Annotation::Property(p) => {
                names.push(p.name_reference().duplicate());
            },
            Annotation::Constraint(_) => {},
        }
        assert(names@ =~= start + property_names(annotations@.subrange(0, i + 1)));
        i = i + 1;
    }
    proof {
        lemma_flatten_all(annotations@, property_names_fn());
    }
}

/// Whether `a` is a property named `name_module:name_member` whose value is a reference
/// to `value_module:value_member`.
pub open spec fn is_qualified_property(
    a: Annotation,
    name_module: Seq<char>,
    name_member: Seq<char>,
    value_module: Seq<char>,
    value_member: Seq<char>,
) -> bool {
    match a {
        Annotation::Property(p) => p.spec_name_reference().spec_is_qualified_as(
            name_module,
            name_member,
        ) && match p.spec_value() {
            Value::Reference(v) => v.spec_is_qualified_as(value_module, value_member),
            _ => false,
        },
        Annotation::Constraint(_) => false,
    }
}

/// Corresponds to the grammar rule `annotation_only_body`.
#[derive(Debug)]
pub struct AnnotationOnlyBody {
    span: Option<Span>,
    annotations: Vec<Annotation>,
}

impl AnnotationOnlyBody {
    pub closed spec fn spec_span(&self) -> Option<Span> {
        self.span
    }

    pub closed spec fn spec_annotations(&self) -> Seq<Annotation> {
        self.annotations@
    }

    pub fn new() -> (r: Self)
        ensures
            r.spec_annotations().len() == 0,
            r.spec_span() is None,
    {
        AnnotationOnlyBody { span: None, annotations: Vec::new() }
    }

    pub fn from_annotations(annotations: Vec<Annotation>) -> (r: Self)
        ensures
            r.spec_annotations() == annotations@,
            r.spec_span() is None,
    {
        AnnotationOnlyBody { span: None, annotations }
    }

    pub fn with_ts_span(self, ts_span: Span) -> (r: Self)
        ensures
            r.spec_span() == Some(ts_span),
            r.spec_annotations() == self.spec_annotations(),
    {
        AnnotationOnlyBody { span: Some(ts_span), ..self }
    }

    pub fn ts_span(&self) -> (r: Option<Span>)
        ensures
            r == self.spec_span(),
    {
        self.span
    }

    pub fn has_annotations(&self) -> (r: bool)
        ensures
            r == (self.spec_annotations().len() > 0),
    {
        self.annotations.len() > 0
    }

    pub fn annotations_len(&self) -> (r: usize)
        ensures
            r == self.spec_annotations().len(),
    {
        self.annotations.len()
    }

    pub fn annotations(&self) -> (r: &Vec<Annotation>)
        ensures
            r@ == self.spec_annotations(),
    {
        &self.annotations
    }

    pub fn add_to_annotations(&mut self, value: Annotation)
        ensures
            final(self).spec_annotations() == old(self).spec_annotations().push(value),
            final(self).spec_span() == old(self).spec_span(),
    {
        self.annotations.push(value);
    }

    pub open spec fn spec_has_qualified_property(
        &self,
        name_module: Seq<char>,
        name_member: Seq<char>,
        value_module: Seq<char>,
        value_member: Seq<char>,
    ) -> bool {
        exists|i: int|
            0 <= i < self.spec_annotations().len() && is_qualified_property(
                #[trigger] self.spec_annotations()[i],
                name_module,
                name_member,
                value_module,
                value_member,
            )
    }

    /// Whether a property named `name_module:name_member` refers to
    /// `value_module:value_member`.
    pub fn has_qualified_property(
        &self,
        name_module: &str,
        name_member: &str,
        value_module: &str,
        value_member: &str,
    ) -> (r: bool)
        ensures
            r == self.spec_has_qualified_property(
                name_module@,
                name_member@,
                value_module@,
                value_member@,
            ),
    {
        let mut i: usize = 0;
        while i < self.annotations.len()
            invariant
                i <= self.spec_annotations().len(),
                self.annotations@ == self.spec_annotations(),
                forall|j: int|
                    0 <= j < i ==> !is_qualified_property(
                        #[trigger] self.spec_annotations()[j],
                        name_module@,
                        name_member@,
                        value_module@,
                        value_member@,
                    ),
            decreases self.spec_annotations().len() - i,
        {
            if let Annotation::Property(p) = &self.annotations[i] {
                if p.name_reference().is_qualified_as(name_module, name_member) {
                    if let Value::Reference(v) = p.value() {
                        if v.is_qualified_as(value_module, value_member) {
                            return true;
                        }
                    }
                }
            }
            i = i + 1;
        }
        false
    }

    pub fn referenced_annotations(&self) -> (r: Vec<IdentifierReference>)
        ensures
            reference_set_of(r@, property_names(self.spec_annotations())),
    {
        distinct_references(self.referenced_annotations_in_order())
    }

    /// In order of appearance, repeats kept.
    pub(crate) fn referenced_annotations_in_order(&self) -> (r: Vec<IdentifierReference>)
        ensures
            r@ == property_names(self.spec_annotations()),
    {
        let mut names: Vec<IdentifierReference> = Vec::new();
        collect_property_names(&self.annotations, &mut names);
        assert(names@ =~= property_names(self.spec_annotations()));
        names
    }

    /// A body of annotations is always complete.
    pub fn is_complete(&self) -> (r: bool)
        ensures
            r,
    {
        true
    }

    pub fn validate(&self, file_id: FileId, check_constraints: bool, out: &mut Vec<Diagnostic>)
        ensures
            final(out)@ == old(out)@ + annotations_diagnostics(
                self.spec_annotations(),
                file_id,
                check_constraints,
            ),
    {
        validate_annotations(&self.annotations, file_id, check_constraints, out);
    }
}


pub open spec fn properties_fn() -> spec_fn(Annotation) -> Seq<AnnotationProperty> {
    |a: Annotation|
        match a {
            Annotation::Property(p) => seq![p],
            Annotation::Constraint(_) => Seq::empty(),
        }
}

pub open spec fn constraints_fn() -> spec_fn(Annotation) -> Seq<Constraint> {
    |a: Annotation|
        match a {
            Annotation::Property(_) => Seq::empty(),
            Annotation::Constraint(c) => seq![c],
        }
}

/// The annotation properties among `annotations`, in order.
pub fn annotation_properties(annotations: &Vec<Annotation>) -> (r: Vec<&AnnotationProperty>)
    ensures
        r@.len() == flatten(annotations@, properties_fn()).len(),
        forall|i: int|
            0 <= i < r@.len() ==> *r@[i] == #[trigger] flatten(annotations@, properties_fn())[i],
{
    let mut r: Vec<&AnnotationProperty> = Vec::new();
    let mut i: usize = 0;
    while i < annotations.len()
        invariant
            i <= annotations@.len(),
            r@.len() == flatten(annotations@.subrange(0, i as int), properties_fn()).len(),
            forall|j: int|
                0 <= j < r@.len() ==> *r@[j] == #[trigger] flatten(
                    annotations@.subrange(0, i as int),
                    properties_fn(),
                )[j],
        decreases annotations@.len() - i,
    {
        proof {
            lemma_flatten_prefix(annotations@, i as int, properties_fn());
        }
        if let Annotation::Property(p) = &annotations[i] {
            r.push(p);
        }
        i = i + 1;
    }
    proof {
        lemma_flatten_all(annotations@, properties_fn());
    }
    r
}

/// The constraints among `annotations`, in order.
pub fn annotation_constraints(annotations: &Vec<Annotation>) -> (r: Vec<&Constraint>)
    ensures
        r@.len() == flatten(annotations@, constraints_fn()).len(),
        forall|i: int|
            0 <= i < r@.len() ==> *r@[i] == #[trigger] flatten(annotations@, constraints_fn())[i],
{
    let mut r: Vec<&Constraint> = Vec::new();
    let mut i: usize = 0;
    while i < annotations.len()
        invariant
            i <= annotations@.len(),
            r@.len() == flatten(annotations@.subrange(0, i as int), constraints_fn()).len(),
            forall|j: int|
                0 <= j < r@.len() ==> *r@[j] == #[trigger] flatten(
                    annotations@.subrange(0, i as int),
                    constraints_fn(),
                )[j],
        decreases annotations@.len() - i,
    {
        proof {
            lemma_flatten_prefix(annotations@, i as int, constraints_fn());
        }
        if let Annotation::Constraint(c) = &annotations[i] {
            r.push(c);
        }
        i = i + 1;
    }
    proof {
        lemma_flatten_all(annotations@, constraints_fn());
    }
    r
}

/// The string value of `a` where it is a property named `module:member` whose value is a
/// string.
pub open spec fn string_values_fn(module: Seq<char>, member: Seq<char>) -> spec_fn(
    Annotation,
) -> Seq<LanguageString> {
    |a: Annotation|
        match a {
            Annotation::Property(p) => if p.spec_name_reference().spec_is_qualified_as(
                module,
                member,
            ) {
                match p.spec_value() {
                    Value::Simple(SimpleValue::String(v)) => seq![v],
                    _ => Seq::empty(),
                }
            } else {
                Seq::empty()
            },
            Annotation::Constraint(_) => Seq::empty(),
        }
}

/// The string values of the properties of `annotations` named `module:member`, in order.
pub fn string_values<'a>(annotations: &'a Vec<Annotation>, module: &str, member: &str) -> (r: Vec<
    &'a LanguageString,
>)
    ensures
        r@.len() == flatten(annotations@, string_values_fn(module@, member@)).len(),
        forall|i: int|
            0 <= i < r@.len() ==> *r@[i] == #[trigger] flatten(
                annotations@,
                string_values_fn(module@, member@),
            )[i],
{
    let ghost f = string_values_fn(module@, member@);
    let mut r: Vec<&LanguageString> = Vec::new();
    let mut i: usize = 0;
    while i < annotations.len()
        invariant
            i <= annotations@.len(),
            f == string_values_fn(module@, member@),
            r@.len() == flatten(annotations@.subrange(0, i as int), f).len(),
            forall|j: int|
                0 <= j < r@.len() ==> *r@[j] == #[trigger] flatten(
                    annotations@.subrange(0, i as int),
                    f,
                )[j],
        decreases annotations@.len() - i,
    {
        proof {
            lemma_flatten_prefix(annotations@, i as int, f);
        }
        if let Annotation::Property(p) = &annotations[i] {
            if p.name_reference().is_qualified_as(module, member) {
                if let Value::Simple(SimpleValue::String(v)) = p.value() {
                    r.push(v);
                }
            }
        }
        i = i + 1;
    }
    proof {
        lemma_flatten_all(annotations@, f);
    }
    r
}

/// Things that carry annotations: the labels and descriptions of a thing are the string
/// values of its annotation properties with the conventional names.
pub trait HasAnnotations {
    spec fn annotations_view(&self) -> Seq<Annotation>;

    fn annotations(&self) -> (r: &Vec<Annotation>)
        ensures
            r@ == self.annotations_view(),
    ;

    /// The values of `skos:prefLabel`.
    fn preferred_label(&self) -> (r: Vec<&LanguageString>)
        ensures
            r@.len() == flatten(self.annotations_view(), string_values_fn("skos"@, "prefLabel"@)).len(),
            forall|i: int|
                0 <= i < r@.len() ==> *r@[i] == #[trigger] flatten(
                    self.annotations_view(),
                    string_values_fn("skos"@, "prefLabel"@),
                )[i],
    {
        string_values(self.annotations(), "skos", "prefLabel")
    }

    /// The values of `skos:altLabel`.
    fn alternate_labels(&self) -> (r: Vec<&LanguageString>)
        ensures
            r@.len() == flatten(self.annotations_view(), string_values_fn("skos"@, "altLabel"@)).len(),
            forall|i: int|
                0 <= i < r@.len() ==> *r@[i] == #[trigger] flatten(
                    self.annotations_view(),
                    string_values_fn("skos"@, "altLabel"@),
                )[i],
    {
        string_values(self.annotations(), "skos", "altLabel")
    }

    /// The values of `dc:description`.
    fn descriptions(&self) -> (r: Vec<&LanguageString>)
        ensures
            r@.len() == flatten(self.annotations_view(), string_values_fn("dc"@, "description"@)).len(),
            forall|i: int|
                0 <= i < r@.len() ==> *r@[i] == #[trigger] flatten(
                    self.annotations_view(),
                    string_values_fn("dc"@, "description"@),
                )[i],
    {
        string_values(self.annotations(), "dc", "description")
    }

    /// The values of `skos:definition`.
    fn definitions(&self) -> (r: Vec<&LanguageString>)
        ensures
            r@.len() == flatten(self.annotations_view(), string_values_fn("skos"@, "definition"@)).len(),
            forall|i: int|
                0 <= i < r@.len() ==> *r@[i] == #[trigger] flatten(
                    self.annotations_view(),
                    string_values_fn("skos"@, "definition"@),
                )[i],
    {
        string_values(self.annotations(), "skos", "definition")
    }

    fn has_annotation_properties(&self) -> (r: bool)
        ensures
            r == exists|i: int|
                0 <= i < self.annotations_view().len() && (#[trigger] self.annotations_view()[i]) is Property,
    {
        let list = self.annotations();
        let mut i: usize = 0;
        while i < list.len()
            invariant
                i <= list@.len(),
                list@ == self.annotations_view(),
                forall|j: int| 0 <= j < i ==> !((#[trigger] list@[j]) is Property),
            decreases list@.len() - i,
        {
            if list[i].is_annotation_property() {
                return true;
            }
            i = i + 1;
        }
        false
    }

    fn has_constraints(&self) -> (r: bool)
        ensures
            r == exists|i: int|
                0 <= i < self.annotations_view().len() && (#[trigger] self.annotations_view()[i]) is Constraint,
    {
        let list = self.annotations();
        let mut i: usize = 0;
        while i < list.len()
            invariant
                i <= list@.len(),
                list@ == self.annotations_view(),
                forall|j: int| 0 <= j < i ==> !((#[trigger] list@[j]) is Constraint),
            decreases list@.len() - i,
        {
            if list[i].is_constraint() {
                return true;
            }
            i = i + 1;
        }
        false
    }
}

impl HasAnnotations for AnnotationOnlyBody {
    open spec fn annotations_view(&self) -> Seq<Annotation> {
        self.spec_annotations()
    }

    fn annotations(&self) -> (r: &Vec<Annotation>) {
        &self.annotations
    }
}

} // verus!
