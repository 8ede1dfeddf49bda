//! Modules, their bodies and imports, the store of loaded modules, and the resolution of
//! references against them.
use crate::annotations::{Annotation, HasAnnotations};
use crate::concat::{flatten, lemma_flatten_all, lemma_flatten_prefix};
use crate::definitions::{
    DatatypeDef, Definition, EnumDef, EventDef, PropertyDef, RdfDef, TypeClassDef, UnionDef,
};
use crate::entities::EntityDef;
use crate::structures::StructureDef;
use crate::diagnostics::FileId;
use crate::identifiers::{
    distinct_identifiers, distinct_qualified_identifiers, distinct_references,
    identifier_set_of, is_library_module_name, qualified_set_of, reference_set_of, Identifier,
    IdentifierReference, QualifiedIdentifier, Span,
};
use vstd::prelude::*;

verus! {

/// A header value of a module (a URI or a version string) and where it was written.
#[derive(Debug)]
pub struct HeaderValue {
    span: Option<Span>,
    value: String,
}

impl HeaderValue {
    pub closed spec fn spec_span(&self) -> Option<Span> {
        self.span
    }

    /// The text of the value.
    pub open spec fn spec_value(&self) -> Seq<char> {
        self.spec_string()@
    }

    pub closed spec fn spec_string(&self) -> String {
        self.value
    }

    pub fn new(value: String) -> (r: Self)
        ensures
            r.spec_value() == value@,
            r.spec_span() is None,
    {
        HeaderValue { span: None, value }
    }

    pub fn with_source_span(self, span: Span) -> (r: Self)
        ensures
            r.spec_value() == self.spec_value(),
            r.spec_span() == Some(span),
    {
        HeaderValue { span: Some(span), ..self }
    }

    pub fn source_span(&self) -> (r: Option<Span>)
        ensures
            r == self.spec_span(),
    {
        self.span
    }

    pub fn value(&self) -> (r: &String)
        ensures
            r@ == self.spec_value(),
            *r == self.spec_string(),
    {
        &self.value
    }

    pub fn set_value(&mut self, value: String)
        ensures
            final(self).spec_value() == value@,
            final(self).spec_span() == old(self).spec_span(),
    {
        self.value = value;
    }

    /// Equal values written at the same place.
    pub fn eq_with_span(&self, other: &HeaderValue) -> (r: bool)
        ensures
            r == (self.spec_span() == other.spec_span() && self.spec_value()
                == other.spec_value()),
    {
        self.span == other.span && self.value == other.value
    }

    pub fn duplicate(&self) -> (r: Self)
        ensures
            r == *self,
    {
        HeaderValue { span: self.span, value: self.value.clone() }
    }
}

/// Two header values are equal when their text is, wherever each was written.
impl PartialEq for HeaderValue {
    fn eq(&self, other: &HeaderValue) -> (r: bool) {
        self.value == other.value
    }
}

impl vstd::std_specs::cmp::PartialEqSpecImpl for HeaderValue {
    open spec fn obeys_eq_spec() -> bool {
        true
    }

    open spec fn eq_spec(&self, other: &HeaderValue) -> bool {
        self.spec_value() == other.spec_value()
    }
}

/// Corresponds to the grammar rule `module_import`: a module, and optionally the version
/// URI that it is expected to have.
#[derive(Debug)]
pub struct ModuleImport {
    span: Option<Span>,
    name: Identifier,
    version_uri: Option<HeaderValue>,
}

impl ModuleImport {
    pub closed spec fn spec_span(&self) -> Option<Span> {
        self.span
    }

    pub closed spec fn spec_name(&self) -> Identifier {
        self.name
    }

    pub closed spec fn spec_version_uri(&self) -> Option<HeaderValue> {
        self.version_uri
    }

    pub fn new(name: Identifier) -> (r: Self)
        ensures
            r.spec_name() == name,
            r.spec_version_uri() is None,
            r.spec_span() is None,
    {
        ModuleImport { span: None, name, version_uri: None }
    }

    pub fn with_version_uri(self, version_uri: HeaderValue) -> (r: Self)
        ensures
            r.spec_name() == self.spec_name(),
            r.spec_version_uri() == Some(version_uri),
            r.spec_span() == self.spec_span(),
    {
        ModuleImport { version_uri: Some(version_uri), ..self }
    }

    pub fn with_ts_span(self, span: Span) -> (r: Self)
        ensures
            r.spec_name() == self.spec_name(),
            r.spec_version_uri() == self.spec_version_uri(),
            r.spec_span() == Some(span),
    {
        ModuleImport { span: Some(span), ..self }
    }

    pub fn ts_span(&self) -> (r: Option<Span>)
        ensures
            r == self.spec_span(),
    {
        self.span
    }

    pub fn name(&self) -> (r: &Identifier)
        ensures
            *r == self.spec_name(),
    {
        &self.name
    }

    pub fn version_uri(&self) -> (r: Option<&HeaderValue>)
        ensures
            r matches Some(v) ==> self.spec_version_uri() == Some(*v),
            r is None <==> self.spec_version_uri() is None,
    {
        self.version_uri.as_ref()
    }

    /// The import as written: the module's name, then ` version ` and the version URI
    /// where there is one.
    pub open spec fn spec_text(&self) -> Seq<char> {
        match self.spec_version_uri() {
            Some(v) => self.spec_name().spec_value() + " version "@ + v.spec_value(),
            None => self.spec_name().spec_value(),
        }
    }

    pub fn to_text(&self) -> (r: String)
        ensures
            r@ == self.spec_text(),
    {
        let mut text = self.name.value().clone();
        if let Some(v) = &self.version_uri {
            text.append(" version ");
            text.append(v.value.as_str());
        }
        text
    }

    /// Same module and version, written at the same place.
    pub fn eq_with_span(&self, other: &ModuleImport) -> (r: bool)
        ensures
            r == (self.spec_span() == other.spec_span() && self.spec_name().spec_value()
                == other.spec_name().spec_value() && match (
                self.spec_version_uri(),
                other.spec_version_uri(),
            ) {
                (None, None) => true,
                (Some(a), Some(b)) => a.spec_value() == b.spec_value(),
                _ => false,
            }),
    {
        let same_version = match (&self.version_uri, &other.version_uri) {
            (None, None) => true,
            (Some(a), Some(b)) => a.value == b.value,
            _ => false,
        };
        self.span == other.span && self.name == other.name && same_version
    }
}

/// Corresponds to the grammar rule `import`.
#[derive(Debug)]
pub enum Import {
    Module(ModuleImport),
    Member(QualifiedIdentifier),
}

impl Import {
    pub open spec fn spec_module(&self) -> Identifier {
        match self {
            Import::Module(v) => v.spec_name(),
            Import::Member(v) => v.spec_module(),
        }
    }

    pub open spec fn spec_span(&self) -> Option<Span> {
        match self {
            Import::Module(v) => v.spec_span(),
            Import::Member(v) => v.spec_span(),
        }
    }

    pub open spec fn spec_text(&self) -> Seq<char> {
        match self {
            Import::Module(v) => v.spec_text(),
            Import::Member(v) => v.spec_text(),
        }
    }

    /// The import as written.
    pub fn to_text(&self) -> (r: String)
        ensures
            r@ == self.spec_text(),
    {
        match self {
            Import::Module(v) => v.to_text(),
            Import::Member(v) => v.to_text(),
        }
    }

    /// The module imported, or the module that the imported member belongs to.
    pub fn module(&self) -> (r: &Identifier)
        ensures
            *r == self.spec_module(),
    {
        match self {
            Import::Module(v) => v.name(),
            Import::Member(v) => v.module(),
        }
    }

    pub fn member(&self) -> (r: Option<&Identifier>)
        ensures
            r matches Some(m) ==> self matches Import::Member(q) && q.spec_member() == *m,
            r is None <==> self is Module,
    {
        match self {
            Import::Module(_) => None,
            Import::Member(v) => Some(v.member()),
        }
    }

    pub fn has_ts_span(&self) -> (r: bool)
        ensures
            r == self.spec_span() is Some,
    {
        self.ts_span().is_some()
    }

    pub fn ts_span(&self) -> (r: Option<Span>)
        ensures
            r == self.spec_span(),
    {
        match self {
            Import::Module(v) => v.ts_span(),
            Import::Member(v) => v.ts_span(),
        }
    }
}

pub open spec fn import_modules_fn() -> spec_fn(Import) -> Seq<Identifier> {
    |i: Import| seq![i.spec_module()]
}

pub open spec fn import_types_fn() -> spec_fn(Import) -> Seq<QualifiedIdentifier> {
    |i: Import|
        match i {
            Import::Member(q) => seq![q],
            Import::Module(_) => Seq::empty(),
        }
}

/// The version URI that an import expects: that of a module import, none for a member
/// import.
pub open spec fn import_version(i: Import) -> Option<HeaderValue> {
    match i {
        Import::Module(m) => m.spec_version_uri(),
        Import::Member(_) => None,
    }
}

/// `start`, then for each import in turn, its module's name bound to the version that it
/// expects; where a module is imported twice, the later import decides.
pub open spec fn module_versions(
    start: Map<Seq<char>, Option<HeaderValue>>,
    imports: Seq<Import>,
) -> Map<Seq<char>, Option<HeaderValue>>
    decreases imports.len(),
{
    if imports.len() == 0 {
        start
    } else {
        module_versions(start, imports.drop_last()).insert(
            imports.last().spec_module().spec_value(),
            import_version(imports.last()),
        )
    }
}

pub proof fn lemma_module_versions_concat(
    start: Map<Seq<char>, Option<HeaderValue>>,
    a: Seq<Import>,
    b: Seq<Import>,
)
    ensures
        module_versions(start, a + b) == module_versions(module_versions(start, a), b),
    decreases b.len(),
{
    if b.len() == 0 {
        assert(a + b =~= a);
    } else {
        assert((a + b).drop_last() =~= a + b.drop_last());
        assert((a + b).last() == b.last());
        lemma_module_versions_concat(start, a, b.drop_last());
    }
}

/// `pairs` lists the entries of `m`, each name once.
pub open spec fn lists_versions(
    pairs: Seq<(Identifier, Option<HeaderValue>)>,
    m: Map<Seq<char>, Option<HeaderValue>>,
) -> bool {
    &&& forall|i: int, j: int|
        0 <= i < j < pairs.len() ==> (#[trigger] pairs[i]).0.spec_value() != (
        #[trigger] pairs[j]).0.spec_value()
    &&& forall|i: int|
        0 <= i < pairs.len() ==> m.contains_key((#[trigger] pairs[i]).0.spec_value()) && m[pairs[i].0.spec_value()]
            == pairs[i].1
    &&& forall|k: Seq<char>|
        m.contains_key(k) ==> exists|i: int| 0 <= i < pairs.len() && (#[trigger] pairs[i]).0.spec_value() == k
}

fn record_versions(
    imports: &Vec<Import>,
    pairs: &mut Vec<(Identifier, Option<HeaderValue>)>,
    Ghost(start): Ghost<Map<Seq<char>, Option<HeaderValue>>>,
)
    requires
        lists_versions(old(pairs)@, start),
    ensures
        lists_versions(final(pairs)@, module_versions(start, imports@)),
{
    let mut i: usize = 0;
    while i < imports.len()
        invariant
            i <= imports@.len(),
            lists_versions(pairs@, module_versions(start, imports@.subrange(0, i as int))),
        decreases imports@.len() - i,
    {
        let ghost m = module_versions(start, imports@.subrange(0, i as int));
        assert(imports@.subrange(0, i + 1).drop_last() =~= imports@.subrange(0, i as int));
        let name = imports[i].module();
        let version: Option<HeaderValue> = match &imports[i] {
            Import::Module(mi) => match mi.version_uri() {
                Some(v) => Some(v.duplicate()),
                None => None,
            },
            Import::Member(_) => None,
        };
        let ghost key = name.spec_value();
        let ghost next = m.insert(key, version);
        assert(next == module_versions(start, imports@.subrange(0, i + 1)));
        let mut j: usize = 0;
        while j < pairs.len() && !(pairs[j].0 == *name)
            invariant
                j <= pairs@.len(),
                key == name.spec_value(),
                forall|l: int| 0 <= l < j ==> (#[trigger] pairs@[l]).0.spec_value() != key,
            decreases pairs@.len() - j,
        {
            j = j + 1;
        }
        let ghost before = pairs@;
        if j < pairs.len() {
            pairs.set(j, (name.duplicate(), version));
            assert forall|k: Seq<char>| next.contains_key(k) implies exists|l: int|
                0 <= l < pairs@.len() && (#[trigger] pairs@[l]).0.spec_value() == k by {
                if k == key {
                    assert(pairs@[j as int].0.spec_value() == k);
                } else {
                    let l = choose|l: int|
                        0 <= l < before.len() && (#[trigger] before[l]).0.spec_value() == k;
                    assert(pairs@[l].0.spec_value() == k);
                }
            }
        } else {
            pairs.push((name.duplicate(), version));
            assert forall|k: Seq<char>| next.contains_key(k) implies exists|l: int|
                0 <= l < pairs@.len() && (#[trigger] pairs@[l]).0.spec_value() == k by {
                if k == key {
                    assert(pairs@[before.len() as int].0.spec_value() == k);
                } else {
                    let l = choose|l: int|
                        0 <= l < before.len() && (#[trigger] before[l]).0.spec_value() == k;
                    assert(pairs@[l].0.spec_value() == k);
                }
            }
        }
        i = i + 1;
    }
    assert(imports@.subrange(0, imports@.len() as int) =~= imports@);
}

/// Corresponds to the grammar rule `import_statement`.
#[derive(Debug)]
pub struct ImportStatement {
    span: Option<Span>,
    imports: Vec<Import>,
}

impl ImportStatement {
    pub closed spec fn spec_span(&self) -> Option<Span> {
        self.span
    }

    pub closed spec fn spec_imports(&self) -> Seq<Import> {
        self.imports@
    }

    pub open spec fn spec_imported_modules(&self) -> Seq<Identifier> {
        flatten(self.spec_imports(), import_modules_fn())
    }

    pub open spec fn spec_imported_types(&self) -> Seq<QualifiedIdentifier> {
        flatten(self.spec_imports(), import_types_fn())
    }

    pub fn new(imports: Vec<Import>) -> (r: Self)
        ensures
            r.spec_imports() == imports@,
            r.spec_span() is None,
    {
        ImportStatement { span: None, imports }
    }

    pub fn new_module(import: Identifier) -> (r: Self)
        ensures
            r.spec_imports().len() == 1,
            r.spec_imports()[0] matches Import::Module(m) && m.spec_name() == import
                && m.spec_version_uri() is None,
    {
        let mut imports: Vec<Import> = Vec::new();
        imports.push(Import::Module(ModuleImport::new(import)));
        ImportStatement { span: None, imports }
    }

    pub fn new_module_with_version_uri(import: Identifier, version_uri: HeaderValue) -> (r: Self)
        ensures
            r.spec_imports().len() == 1,
            r.spec_imports()[0] matches Import::Module(m) && m.spec_name() == import
                && m.spec_version_uri() == Some(version_uri),
    {
        let mut imports: Vec<Import> = Vec::new();
        imports.push(Import::Module(ModuleImport::new(import).with_version_uri(version_uri)));
        ImportStatement { span: None, imports }
    }

    pub fn new_member(import: QualifiedIdentifier) -> (r: Self)
        ensures
            r.spec_imports() == seq![Import::Member(import)],
    {
        let mut imports: Vec<Import> = Vec::new();
        imports.push(Import::Member(import));
        assert(imports@ =~= seq![Import::Member(import)]);
        ImportStatement { span: None, imports }
    }

    pub fn with_ts_span(self, span: Span) -> (r: Self)
        ensures
            r.spec_imports() == self.spec_imports(),
            r.spec_span() == Some(span),
    {
        ImportStatement { span: Some(span), ..self }
    }

    pub fn ts_span(&self) -> (r: Option<Span>)
        ensures
            r == self.spec_span(),
    {
        self.span
    }

    pub fn has_imports(&self) -> (r: bool)
        ensures
            r == (self.spec_imports().len() > 0),
    {
        self.imports.len() > 0
    }

    pub fn imports_len(&self) -> (r: usize)
        ensures
            r == self.spec_imports().len(),
    {
        self.imports.len()
    }

    pub fn imports(&self) -> (r: &Vec<Import>)
        ensures
            r@ == self.spec_imports(),
    {
        &self.imports
    }

    pub fn add_to_imports(&mut self, value: Import)
        ensures
            final(self).spec_imports() == old(self).spec_imports().push(value),
            final(self).spec_span() == old(self).spec_span(),
    {
        self.imports.push(value);
    }

    pub fn as_slice(&self) -> (r: &[Import])
        ensures
            r@ == self.spec_imports(),
    {
        self.imports.as_slice()
    }

    /// The modules that the statement imports from, each once.
    pub fn imported_modules(&self) -> (r: Vec<Identifier>)
        ensures
            identifier_set_of(r@, self.spec_imported_modules()),
    {
        let mut all: Vec<Identifier> = Vec::new();
        let ghost imports = self.spec_imports();
        let mut i: usize = 0;
        while i < self.imports.len()
            invariant
                i <= imports.len(),
                self.imports@ == imports,
                all@ == flatten(imports.subrange(0, i as int), import_modules_fn()),
            decreases imports.len() - i,
        {
            proof {
                lemma_flatten_prefix(imports, i as int, import_modules_fn());
            }
            all.push(self.imports[i].module().duplicate());
            assert(all@ =~= flatten(imports.subrange(0, i + 1), import_modules_fn()));
            i = i + 1;
        }
        proof {
            lemma_flatten_all(imports, import_modules_fn());
        }
        distinct_identifiers(all)
    }

    /// Each imported module once, with the version URI that the statement expects of it.
    pub fn imported_module_versions(&self) -> (r: Vec<(Identifier, Option<HeaderValue>)>)
        ensures
            lists_versions(r@, module_versions(Map::empty(), self.spec_imports())),
    {
        let mut pairs: Vec<(Identifier, Option<HeaderValue>)> = Vec::new();
        record_versions(&self.imports, &mut pairs, Ghost(Map::empty()));
        pairs
    }

    /// The members that the statement imports, each once.
    pub fn imported_types(&self) -> (r: Vec<QualifiedIdentifier>)
        ensures
            qualified_set_of(r@, self.spec_imported_types()),
    {
        let mut all: Vec<QualifiedIdentifier> = Vec::new();
        let ghost imports = self.spec_imports();
        let mut i: usize = 0;
        while i < self.imports.len()
            invariant
                i <= imports.len(),
                self.imports@ == imports,
                all@ == flatten(imports.subrange(0, i as int), import_types_fn()),
            decreases imports.len() - i,
        {
            proof {
                lemma_flatten_prefix(imports, i as int, import_types_fn());
            }
            if let Import::Member(q) = &self.imports[i] {
                all.push(q.duplicate());
            }
            assert(all@ =~= flatten(imports.subrange(0, i + 1), import_types_fn()));
            i = i + 1;
        }
        proof {
            lemma_flatten_all(imports, import_types_fn());
        }
        distinct_qualified_identifiers(all)
    }
}

/// The first definition of `defs` named `name`.
pub open spec fn find_definition(defs: Seq<Definition>, name: Seq<char>) -> Option<Definition>
    decreases defs.len(),
{
    if defs.len() == 0 {
        None
    } else if defs[0].spec_name().spec_value() == name {
        Some(defs[0])
    } else {
        find_definition(defs.drop_first(), name)
    }
}

fn find_definition_in<'a>(defs: &'a Vec<Definition>, name: &Identifier) -> (r: Option<
    &'a Definition,
>)
    ensures
        r matches Some(d) ==> find_definition(defs@, name.spec_value()) == Some(*d),
        r is None <==> find_definition(defs@, name.spec_value()) is None,
{
    let mut i: usize = 0;
    assert(defs@.subrange(0, defs@.len() as int) =~= defs@);
    while i < defs.len()
        invariant
            i <= defs@.len(),
            find_definition(defs@, name.spec_value()) == find_definition(
                defs@.subrange(i as int, defs@.len() as int),
                name.spec_value(),
            ),
        decreases defs@.len() - i,
    {
        let ghost rest = defs@.subrange(i as int, defs@.len() as int);
        assert(rest.drop_first() =~= defs@.subrange(i + 1, defs@.len() as int));
        assert(rest[0] == defs@[i as int]);
        if defs[i].name() == name {
            return Some(&defs[i]);
        }
        i = i + 1;
    }
    assert(defs@.subrange(i as int, defs@.len() as int).len() == 0);
    None
}

/// The error of adding a kind of definition that only a library module may hold.
#[derive(Debug)]
pub struct LibraryDefinitionNotAllowed {
    file_id: FileId,
    span: Option<Span>,
    name: Identifier,
}

impl LibraryDefinitionNotAllowed {
    pub closed spec fn spec_file_id(&self) -> FileId {
        self.file_id
    }

    pub closed spec fn spec_span(&self) -> Option<Span> {
        self.span
    }

    pub closed spec fn spec_name(&self) -> Identifier {
        self.name
    }

    pub fn file_id(&self) -> (r: FileId)
        ensures
            r == self.spec_file_id(),
    {
        self.file_id
    }

    pub fn span(&self) -> (r: Option<Span>)
        ensures
            r == self.spec_span(),
    {
        self.span
    }

    pub fn name(&self) -> (r: &Identifier)
        ensures
            *r == self.spec_name(),
    {
        &self.name
    }
}

pub open spec fn all_definitions_complete(defs: Seq<Definition>) -> bool {
    forall|i: int| 0 <= i < defs.len() ==> (#[trigger] defs[i]).spec_complete()
}

pub open spec fn definition_names_fn() -> spec_fn(Definition) -> Seq<Identifier> {
    |d: Definition| seq![d.spec_name()]
}

pub open spec fn definition_types_fn() -> spec_fn(Definition) -> Seq<IdentifierReference> {
    |d: Definition| d.spec_referenced_types()
}

pub open spec fn definition_annotations_fn() -> spec_fn(Definition) -> Seq<IdentifierReference> {
    |d: Definition| d.spec_referenced_annotations()
}

pub open spec fn statement_imports_fn() -> spec_fn(ImportStatement) -> Seq<Import> {
    |s: ImportStatement| s.spec_imports()
}

pub open spec fn statement_modules_fn() -> spec_fn(ImportStatement) -> Seq<Identifier> {
    |s: ImportStatement| s.spec_imported_modules()
}

pub open spec fn statement_types_fn() -> spec_fn(ImportStatement) -> Seq<QualifiedIdentifier> {
    |s: ImportStatement| s.spec_imported_types()
}

pub open spec fn datatype_definitions_fn() -> spec_fn(Definition) -> Seq<DatatypeDef> {
    |d: Definition|
        match d {
            Definition::Datatype(v) => seq![v],
            _ => Seq::empty(),
        }
}

pub open spec fn entity_definitions_fn() -> spec_fn(Definition) -> Seq<EntityDef> {
    |d: Definition|
        match d {
            Definition::Entity(v) => seq![v],
            _ => Seq::empty(),
        }
}

pub open spec fn enum_definitions_fn() -> spec_fn(Definition) -> Seq<EnumDef> {
    |d: Definition|
        match d {
            Definition::Enum(v) => seq![v],
            _ => Seq::empty(),
        }
}

pub open spec fn event_definitions_fn() -> spec_fn(Definition) -> Seq<EventDef> {
    |d: Definition|
        match d {
            Definition::Event(v) => seq![v],
            _ => Seq::empty(),
        }
}

pub open spec fn property_definitions_fn() -> spec_fn(Definition) -> Seq<PropertyDef> {
    |d: Definition|
        match d {
            Definition::Property(v) => seq![v],
            _ => Seq::empty(),
        }
}

pub open spec fn rdf_definitions_fn() -> spec_fn(Definition) -> Seq<RdfDef> {
    |d: Definition|
        match d {
            Definition::Rdf(v) => seq![v],
            _ => Seq::empty(),
        }
}

pub open spec fn structure_definitions_fn() -> spec_fn(Definition) -> Seq<StructureDef> {
    |d: Definition|
        match d {
            Definition::Structure(v) => seq![v],
            _ => Seq::empty(),
        }
}

pub open spec fn type_class_definitions_fn() -> spec_fn(Definition) -> Seq<TypeClassDef> {
    |d: Definition|
        match d {
            Definition::TypeClass(v) => seq![v],
            _ => Seq::empty(),
        }
}

pub open spec fn union_definitions_fn() -> spec_fn(Definition) -> Seq<UnionDef> {
    |d: Definition|
        match d {
            Definition::Union(v) => seq![v],
            _ => Seq::empty(),
        }
}

/// Corresponds to the grammar rule `module_body`. It knows whether its module is a
/// library module, and refuses library-only definitions where it is not.
#[derive(Debug)]
pub struct ModuleBody {
    span: Option<Span>,
    file_id: Option<FileId>,
    is_library: bool,
    imports: Vec<ImportStatement>,
    annotations: Vec<Annotation>,
    definitions: Vec<Definition>,
}

impl ModuleBody {
    pub closed spec fn spec_span(&self) -> Option<Span> {
        self.span
    }

    pub closed spec fn spec_file_id(&self) -> Option<FileId> {
        self.file_id
    }

    pub closed spec fn spec_is_library(&self) -> bool {
        self.is_library
    }

    pub closed spec fn spec_imports(&self) -> Seq<ImportStatement> {
        self.imports@
    }

    pub closed spec fn spec_annotations(&self) -> Seq<Annotation> {
        self.annotations@
    }

    pub closed spec fn spec_definitions(&self) -> Seq<Definition> {
        self.definitions@
    }

    /// Complete when every definition is.
    pub open spec fn spec_complete(&self) -> bool {
        all_definitions_complete(self.spec_definitions())
    }

    pub open spec fn spec_imported_modules(&self) -> Seq<Identifier> {
        flatten(self.spec_imports(), statement_modules_fn())
    }

    pub open spec fn spec_imported_types(&self) -> Seq<QualifiedIdentifier> {
        flatten(self.spec_imports(), statement_types_fn())
    }

    pub open spec fn spec_defined_names(&self) -> Seq<Identifier> {
        flatten(self.spec_definitions(), definition_names_fn())
    }

    pub open spec fn spec_referenced_types(&self) -> Seq<IdentifierReference> {
        flatten(self.spec_definitions(), definition_types_fn())
    }

    pub open spec fn spec_referenced_annotations(&self) -> Seq<IdentifierReference> {
        flatten(self.spec_definitions(), definition_annotations_fn())
    }

    /// An empty body of a module that is not a library module.
    pub fn new() -> (r: Self)
        ensures
            r.spec_imports().len() == 0,
            r.spec_annotations().len() == 0,
            r.spec_definitions().len() == 0,
            !r.spec_is_library(),
            r.spec_file_id() is None,
            r.spec_span() is None,
    {
        ModuleBody {
            span: None,
            file_id: None,
            is_library: false,
            imports: Vec::new(),
            annotations: Vec::new(),
            definitions: Vec::new(),
        }
    }

    pub fn with_ts_span(self, span: Span) -> (r: Self)
        ensures
            r.spec_span() == Some(span),
            r.spec_file_id() == self.spec_file_id(),
            r.spec_is_library() == self.spec_is_library(),
            r.spec_imports() == self.spec_imports(),
            r.spec_annotations() == self.spec_annotations(),
            r.spec_definitions() == self.spec_definitions(),
    {
        ModuleBody { span: Some(span), ..self }
    }

    pub fn ts_span(&self) -> (r: Option<Span>)
        ensures
            r == self.spec_span(),
    {
        self.span
    }

    /// Takes the library status from the name of the module that holds the body.
    pub fn set_library_status(&mut self, module_name: &Identifier)
        ensures
            final(self).spec_is_library() == is_library_module_name(module_name.spec_value()),
            final(self).spec_span() == old(self).spec_span(),
            final(self).spec_file_id() == old(self).spec_file_id(),
            final(self).spec_imports() == old(self).spec_imports(),
            final(self).spec_annotations() == old(self).spec_annotations(),
            final(self).spec_definitions() == old(self).spec_definitions(),
    {
        self.is_library = module_name.is_library_module_name();
    }

    pub fn is_library(&self) -> (r: bool)
        ensures
            r == self.spec_is_library(),
    {
        self.is_library
    }

    pub fn has_imports(&self) -> (r: bool)
        ensures
            r == (self.spec_imports().len() > 0),
    {
        self.imports.len() > 0
    }

    pub fn imports_len(&self) -> (r: usize)
        ensures
            r == self.spec_imports().len(),
    {
        self.imports.len()
    }

    pub fn imports(&self) -> (r: &Vec<ImportStatement>)
        ensures
            r@ == self.spec_imports(),
    {
        &self.imports
    }

    pub fn add_to_imports(&mut self, value: ImportStatement)
        ensures
            final(self).spec_imports() == old(self).spec_imports().push(value),
            final(self).spec_span() == old(self).spec_span(),
            final(self).spec_file_id() == old(self).spec_file_id(),
            final(self).spec_is_library() == old(self).spec_is_library(),
            final(self).spec_annotations() == old(self).spec_annotations(),
            final(self).spec_definitions() == old(self).spec_definitions(),
    {
        self.imports.push(value);
    }

    pub fn annotations(&self) -> (r: &Vec<Annotation>)
        ensures
            r@ == self.spec_annotations(),
    {
        &self.annotations
    }

    pub fn add_to_annotations(&mut self, value: Annotation)
        ensures
            final(self).spec_annotations() == old(self).spec_annotations().push(value),
            final(self).spec_span() == old(self).spec_span(),
            final(self).spec_file_id() == old(self).spec_file_id(),
            final(self).spec_is_library() == old(self).spec_is_library(),
            final(self).spec_imports() == old(self).spec_imports(),
            final(self).spec_definitions() == old(self).spec_definitions(),
    {
        self.annotations.push(value);
    }

    pub fn has_definitions(&self) -> (r: bool)
        ensures
            r == (self.spec_definitions().len() > 0),
    {
        self.definitions.len() > 0
    }

    pub fn definitions_len(&self) -> (r: usize)
        ensures
            r == self.spec_definitions().len(),
    {
        self.definitions.len()
    }

    pub fn definitions(&self) -> (r: &Vec<Definition>)
        ensures
            r@ == self.spec_definitions(),
    {
        &self.definitions
    }

    /// Adds a definition; a library-only kind is refused unless this is the body of a
    /// library module, and then the body is left as it was.
    pub fn add_to_definitions(&mut self, definition: Definition) -> (r: Result<
        (),
        LibraryDefinitionNotAllowed,
    >)
        ensures
            r is Err <==> (!old(self).spec_is_library() && definition.spec_is_library_only()),
            r is Ok ==> final(self).spec_definitions() == old(self).spec_definitions().push(
                definition,
            ),
            r is Err ==> *final(self) == *old(self),
            r matches Err(e) ==> e.spec_name() == definition.spec_name() && e.spec_span()
                == definition.spec_span() && e.spec_file_id() == match old(self).spec_file_id() {
                Some(f) => f,
                None => 0,
            },
            final(self).spec_span() == old(self).spec_span(),
            final(self).spec_file_id() == old(self).spec_file_id(),
            final(self).spec_is_library() == old(self).spec_is_library(),
            final(self).spec_imports() == old(self).spec_imports(),
            final(self).spec_annotations() == old(self).spec_annotations(),
    {
        if !self.is_library && definition.is_library_only() {
            let file_id = match self.file_id {
                Some(f) => f,
                None => 0,
            };
            Err(
                LibraryDefinitionNotAllowed {
                    file_id,
                    span: definition.ts_span(),
                    name: definition.name().duplicate(),
                },
            )
        } else {
            self.definitions.push(definition);
            Ok(())
        }
    }

    /// Adds the definitions in order, stopping at the first that is refused; those before
    /// it stay added.
    pub fn extend_definitions(&mut self, extension: Vec<Definition>) -> (r: Result<
        (),
        LibraryDefinitionNotAllowed,
    >)
        ensures
            r is Err <==> (!old(self).spec_is_library() && exists|i: int|
                0 <= i < extension@.len() && (#[trigger] extension@[i]).spec_is_library_only()),
            r is Ok ==> final(self).spec_definitions() == old(self).spec_definitions()
                + extension@,
            r matches Err(e) ==> exists|k: int|
                0 <= k < extension@.len() && (#[trigger] extension@[k]).spec_is_library_only()
                    && (forall|j: int|
                    0 <= j < k ==> !(#[trigger] extension@[j]).spec_is_library_only())
                    && final(self).spec_definitions() == old(self).spec_definitions()
                    + extension@.subrange(0, k) && e.spec_name() == extension@[k].spec_name()
                    && e.spec_span() == extension@[k].spec_span() && e.spec_file_id() == match old(
                    self,
                ).spec_file_id() {
                    Some(f) => f,
                    None => 0,
                },
            final(self).spec_is_library() == old(self).spec_is_library(),
            final(self).spec_imports() == old(self).spec_imports(),
            final(self).spec_annotations() == old(self).spec_annotations(),
    {
        let mut rest = extension;
        let ghost given = extension@;
        let ghost old_self = *old(self);
        let ghost mut k: int = 0;
        let mut result: Result<(), LibraryDefinitionNotAllowed> = Ok(());
        while rest.len() > 0
            invariant_except_break
                rest@ == given.subrange(k, given.len() as int),
                result is Ok,
            invariant
                0 <= k <= given.len(),
                self.spec_definitions() == old_self.spec_definitions() + given.subrange(0, k),
                self.spec_is_library() == old_self.spec_is_library(),
                self.spec_imports() == old_self.spec_imports(),
                self.spec_annotations() == old_self.spec_annotations(),
                self.spec_file_id() == old_self.spec_file_id(),
                self.spec_span() == old_self.spec_span(),
                forall|j: int|
                    0 <= j < k ==> !(!old_self.spec_is_library()
                        && (#[trigger] given[j]).spec_is_library_only()),
            ensures
                result is Ok ==> rest@.len() == 0 && k == given.len(),
                result is Err ==> k < given.len() && !old_self.spec_is_library()
                    && given[k].spec_is_library_only(),
                result matches Err(e) ==> e.spec_name() == given[k].spec_name() && e.spec_span()
                    == given[k].spec_span() && e.spec_file_id() == match old_self.spec_file_id() {
                    Some(f) => f,
                    None => 0,
                },
                self.spec_definitions() == old_self.spec_definitions() + given.subrange(0, k),
                self.spec_is_library() == old_self.spec_is_library(),
                self.spec_imports() == old_self.spec_imports(),
                self.spec_annotations() == old_self.spec_annotations(),
                forall|j: int|
                    0 <= j < k ==> !(!old_self.spec_is_library()
                        && (#[trigger] given[j]).spec_is_library_only()),
            decreases rest@.len(),
        {
            let definition = rest.remove(0);
            assert(definition == given[k]);
            let added = self.add_to_definitions(definition);
            if added.is_err() {
                result = added;
                break;
            }
            proof {
                assert(given.subrange(0, k + 1) =~= given.subrange(0, k).push(given[k]));
                assert(rest@ =~= given.subrange(k + 1, given.len() as int));
                k = k + 1;
            }
        }
        assert(result is Ok ==> given.subrange(0, k) =~= given);
        assert(result is Err ==> given[k].spec_is_library_only());
        result
    }

    /// The module of every import, statement by statement, in order.
    pub fn imported_modules(&self) -> (r: Vec<Identifier>)
        ensures
            identifier_set_of(r@, self.spec_imported_modules()),
    {
        distinct_identifiers(self.imported_modules_in_order())
    }

    /// In order of appearance, repeats kept.
    pub(crate) fn imported_modules_in_order(&self) -> (r: Vec<Identifier>)
        ensures
            r@ == self.spec_imported_modules(),
    {
        self.collect_imports(true).0
    }

    /// Every member import, statement by statement, in order.
    pub fn imported_types(&self) -> (r: Vec<QualifiedIdentifier>)
        ensures
            qualified_set_of(r@, self.spec_imported_types()),
    {
        distinct_qualified_identifiers(self.imported_types_in_order())
    }

    /// In order of appearance, repeats kept.
    pub(crate) fn imported_types_in_order(&self) -> (r: Vec<QualifiedIdentifier>)
        ensures
            r@ == self.spec_imported_types(),
    {
        self.collect_imports(false).1
    }

    /// Collects the imported modules where `modules` holds, else the member imports.
    fn collect_imports(&self, modules: bool) -> (r: (Vec<Identifier>, Vec<QualifiedIdentifier>))
        ensures
            modules ==> r.0@ == self.spec_imported_modules(),
            !modules ==> r.1@ == self.spec_imported_types(),
    {
        let mut names: Vec<Identifier> = Vec::new();
        let mut types: Vec<QualifiedIdentifier> = Vec::new();
        let ghost statements = self.spec_imports();
        let mut s: usize = 0;
        while s < self.imports.len()
            invariant
                s <= statements.len(),
                self.imports@ == statements,
                modules ==> names@ == flatten(statements.subrange(0, s as int), statement_modules_fn()),
                !modules ==> types@ == flatten(statements.subrange(0, s as int), statement_types_fn()),
            decreases statements.len() - s,
        {
            proof {
                lemma_flatten_prefix(statements, s as int, statement_modules_fn());
                lemma_flatten_prefix(statements, s as int, statement_types_fn());
            }
            let imports = self.imports[s].imports();
            let ghost names_before = names@;
            let ghost types_before = types@;
            let mut i: usize = 0;
            while i < imports.len()
                invariant
                    i <= imports@.len(),
                    imports@ == statements[s as int].spec_imports(),
                    modules ==> names@ == names_before + flatten(
                        imports@.subrange(0, i as int),
                        import_modules_fn(),
                    ),
                    !modules ==> types@ == types_before + flatten(
                        imports@.subrange(0, i as int),
                        import_types_fn(),
                    ),
                decreases imports@.len() - i,
            {
                proof {
                    lemma_flatten_prefix(imports@, i as int, import_modules_fn());
                    lemma_flatten_prefix(imports@, i as int, import_types_fn());
                }
                if modules {
                    names.push(imports[i].module().duplicate());
                    assert(names@ =~= names_before + flatten(
                        imports@.subrange(0, i + 1),
                        import_modules_fn(),
                    ));
                } else {
                    if let Import::Member(q) = &imports[i] {
                        types.push(q.duplicate());
                    }
                    assert(types@ =~= types_before + flatten(
                        imports@.subrange(0, i + 1),
                        import_types_fn(),
                    ));
                }
                i = i + 1;
            }
            proof {
                lemma_flatten_all(imports@, import_modules_fn());
                lemma_flatten_all(imports@, import_types_fn());
                if modules {
                    assert(names@ =~= flatten(statements.subrange(0, s + 1), statement_modules_fn()));
                } else {
                    assert(types@ =~= flatten(statements.subrange(0, s + 1), statement_types_fn()));
                }
            }
            s = s + 1;
        }
        proof {
            lemma_flatten_all(statements, statement_modules_fn());
            lemma_flatten_all(statements, statement_types_fn());
        }
        (names, types)
    }

    /// Each imported module once, with the version URI expected of it; where a module is
    /// imported twice, the later import decides.
    pub fn imported_module_versions(&self) -> (r: Vec<(Identifier, Option<HeaderValue>)>)
        ensures
            lists_versions(
                r@,
                module_versions(Map::empty(), flatten(self.spec_imports(), statement_imports_fn())),
            ),
    {
        let mut pairs: Vec<(Identifier, Option<HeaderValue>)> = Vec::new();
        let ghost statements = self.spec_imports();
        let mut s: usize = 0;
        while s < self.imports.len()
            invariant
                s <= statements.len(),
                self.imports@ == statements,
                lists_versions(
                    pairs@,
                    module_versions(
                        Map::empty(),
                        flatten(statements.subrange(0, s as int), statement_imports_fn()),
                    ),
                ),
            decreases statements.len() - s,
        {
            let ghost so_far = flatten(statements.subrange(0, s as int), statement_imports_fn());
            proof {
                lemma_flatten_prefix(statements, s as int, statement_imports_fn());
                lemma_module_versions_concat(Map::empty(), so_far, statements[s as int].spec_imports());
            }
            record_versions(
                self.imports[s].imports(),
                &mut pairs,
                Ghost(module_versions(Map::empty(), so_far)),
            );
            s = s + 1;
        }
        proof {
            lemma_flatten_all(statements, statement_imports_fn());
        }
        pairs
    }

    /// The name of every definition, in order.
    pub fn defined_names(&self) -> (r: Vec<Identifier>)
        ensures
            identifier_set_of(r@, self.spec_defined_names()),
    {
        distinct_identifiers(self.defined_names_in_order())
    }

    /// In order of appearance, repeats kept.
    pub(crate) fn defined_names_in_order(&self) -> (r: Vec<Identifier>)
        ensures
            r@ == self.spec_defined_names(),
    {
        let mut names: Vec<Identifier> = Vec::new();
        let ghost defs = self.spec_definitions();
        let mut i: usize = 0;
        while i < self.definitions.len()
            invariant
                i <= defs.len(),
                self.definitions@ == defs,
                names@ == flatten(defs.subrange(0, i as int), definition_names_fn()),
            decreases defs.len() - i,
        {
            proof {
                lemma_flatten_prefix(defs, i as int, definition_names_fn());
            }
            names.push(self.definitions[i].name().duplicate());
            assert(names@ =~= flatten(defs.subrange(0, i + 1), definition_names_fn()));
            i = i + 1;
        }
        proof {
            lemma_flatten_all(defs, definition_names_fn());
        }
        names
    }

    /// The types that the definitions refer to, definition by definition.
    pub fn referenced_types(&self) -> (r: Vec<IdentifierReference>)
        ensures
            reference_set_of(r@, self.spec_referenced_types()),
    {
        distinct_references(self.referenced_types_in_order())
    }

    /// In order of appearance, repeats kept.
    pub(crate) fn referenced_types_in_order(&self) -> (r: Vec<IdentifierReference>)
        ensures
            r@ == self.spec_referenced_types(),
    {
        self.collect_references(true)
    }

    /// The annotation properties that the definitions name, definition by definition.
    pub fn referenced_annotations(&self) -> (r: Vec<IdentifierReference>)
        ensures
            reference_set_of(r@, self.spec_referenced_annotations()),
    {
        distinct_references(self.referenced_annotations_in_order())
    }

    /// In order of appearance, repeats kept.
    pub(crate) fn referenced_annotations_in_order(&self) -> (r: Vec<IdentifierReference>)
        ensures
            r@ == self.spec_referenced_annotations(),
    {
        self.collect_references(false)
    }

    fn collect_references(&self, types: bool) -> (r: Vec<IdentifierReference>)
        ensures
            r@ == flatten(
                self.spec_definitions(),
                if types {
                    definition_types_fn()
                } else {
                    definition_annotations_fn()
                },
            ),
    {
        let ghost f = if types {
            definition_types_fn()
        } else {
            definition_annotations_fn()
        };
        let mut names: Vec<IdentifierReference> = Vec::new();
        let ghost defs = self.spec_definitions();
        let mut i: usize = 0;
        while i < self.definitions.len()
            invariant
                i <= defs.len(),
                self.definitions@ == defs,
                f == (if types {
                    definition_types_fn()
                } else {
                    definition_annotations_fn()
                }),
                names@ == flatten(defs.subrange(0, i as int), f),
            decreases defs.len() - i,
        {
            proof {
                lemma_flatten_prefix(defs, i as int, f);
            }
            let mut more = if types {
                self.definitions[i].referenced_types_in_order()
            } else {
                self.definitions[i].referenced_annotations_in_order()
            };
            names.append(&mut more);
            assert(names@ =~= flatten(defs.subrange(0, i + 1), f));
            i = i + 1;
        }
        proof {
            lemma_flatten_all(defs, f);
        }
        names
    }

    /// The datatype definitions, in order.
    pub fn datatype_definitions(&self) -> (r: Vec<&DatatypeDef>)
        ensures
            r@.len() == flatten(self.spec_definitions(), datatype_definitions_fn()).len(),
            forall|i: int|
                0 <= i < r@.len() ==> *r@[i] == #[trigger] flatten(
                    self.spec_definitions(),
                    datatype_definitions_fn(),
                )[i],
    {
        let ghost defs = self.spec_definitions();
        let mut r: Vec<&DatatypeDef> = Vec::new();
        let mut i: usize = 0;
        while i < self.definitions.len()
            invariant
                i <= defs.len(),
                self.definitions@ == defs,
                r@.len() == flatten(defs.subrange(0, i as int), datatype_definitions_fn()).len(),
                forall|j: int|
                    0 <= j < r@.len() ==> *r@[j] == #[trigger] flatten(
                        defs.subrange(0, i as int),
                        datatype_definitions_fn(),
                    )[j],
            decreases defs.len() - i,
        {
            proof {
                lemma_flatten_prefix(defs, i as int, datatype_definitions_fn());
            }
            if let Definition::Datatype(v) = &self.definitions[i] {
                r.push(v);
            }
            i = i + 1;
        }
        proof {
            lemma_flatten_all(defs, datatype_definitions_fn());
        }
        r
    }

    /// The entity definitions, in order.
    pub fn entity_definitions(&self) -> (r: Vec<&EntityDef>)
        ensures
            r@.len() == flatten(self.spec_definitions(), entity_definitions_fn()).len(),
            forall|i: int|
                0 <= i < r@.len() ==> *r@[i] == #[trigger] flatten(
                    self.spec_definitions(),
                    entity_definitions_fn(),
                )[i],
    {
        let ghost defs = self.spec_definitions();
        let mut r: Vec<&EntityDef> = Vec::new();
        let mut i: usize = 0;
        while i < self.definitions.len()
            invariant
                i <= defs.len(),
                self.definitions@ == defs,
                r@.len() == flatten(defs.subrange(0, i as int), entity_definitions_fn()).len(),
                forall|j: int|
                    0 <= j < r@.len() ==> *r@[j] == #[trigger] flatten(
                        defs.subrange(0, i as int),
                        entity_definitions_fn(),
                    )[j],
            decreases defs.len() - i,
        {
            proof {
                lemma_flatten_prefix(defs, i as int, entity_definitions_fn());
            }
            if let Definition::Entity(v) = &self.definitions[i] {
                r.push(v);
            }
            i = i + 1;
        }
        proof {
            lemma_flatten_all(defs, entity_definitions_fn());
        }
        r
    }

    /// The enum definitions, in order.
    pub fn enum_definitions(&self) -> (r: Vec<&EnumDef>)
        ensures
            r@.len() == flatten(self.spec_definitions(), enum_definitions_fn()).len(),
            forall|i: int|
                0 <= i < r@.len() ==> *r@[i] == #[trigger] flatten(
                    self.spec_definitions(),
                    enum_definitions_fn(),
                )[i],
    {
        let ghost defs = self.spec_definitions();
        let mut r: Vec<&EnumDef> = Vec::new();
        let mut i: usize = 0;
        while i < self.definitions.len()
            invariant
                i <= defs.len(),
                self.definitions@ == defs,
                r@.len() == flatten(defs.subrange(0, i as int), enum_definitions_fn()).len(),
                forall|j: int|
                    0 <= j < r@.len() ==> *r@[j] == #[trigger] flatten(
                        defs.subrange(0, i as int),
                        enum_definitions_fn(),
                    )[j],
            decreases defs.len() - i,
        {
            proof {
                lemma_flatten_prefix(defs, i as int, enum_definitions_fn());
            }
            if let Definition::Enum(v) = &self.definitions[i] {
                r.push(v);
            }
            i = i + 1;
        }
        proof {
            lemma_flatten_all(defs, enum_definitions_fn());
        }
        r
    }

    /// The event definitions, in order.
    pub fn event_definitions(&self) -> (r: Vec<&EventDef>)
        ensures
            r@.len() == flatten(self.spec_definitions(), event_definitions_fn()).len(),
            forall|i: int|
                0 <= i < r@.len() ==> *r@[i] == #[trigger] flatten(
                    self.spec_definitions(),
                    event_definitions_fn(),
                )[i],
    {
        let ghost defs = self.spec_definitions();
        let mut r: Vec<&EventDef> = Vec::new();
        let mut i: usize = 0;
        while i < self.definitions.len()
            invariant
                i <= defs.len(),
                self.definitions@ == defs,
                r@.len() == flatten(defs.subrange(0, i as int), event_definitions_fn()).len(),
                forall|j: int|
                    0 <= j < r@.len() ==> *r@[j] == #[trigger] flatten(
                        defs.subrange(0, i as int),
                        event_definitions_fn(),
                    )[j],
            decreases defs.len() - i,
        {
            proof {
                lemma_flatten_prefix(defs, i as int, event_definitions_fn());
            }
            if let Definition::Event(v) = &self.definitions[i] {
                r.push(v);
            }
            i = i + 1;
        }
        proof {
            lemma_flatten_all(defs, event_definitions_fn());
        }
        r
    }

    /// The property definitions, in order.
    pub fn property_definitions(&self) -> (r: Vec<&PropertyDef>)
        ensures
            r@.len() == flatten(self.spec_definitions(), property_definitions_fn()).len(),
            forall|i: int|
                0 <= i < r@.len() ==> *r@[i] == #[trigger] flatten(
                    self.spec_definitions(),
                    property_definitions_fn(),
                )[i],
    {
        let ghost defs = self.spec_definitions();
        let mut r: Vec<&PropertyDef> = Vec::new();
        let mut i: usize = 0;
        while i < self.definitions.len()
            invariant
                i <= defs.len(),
                self.definitions@ == defs,
                r@.len() == flatten(defs.subrange(0, i as int), property_definitions_fn()).len(),
                forall|j: int|
                    0 <= j < r@.len() ==> *r@[j] == #[trigger] flatten(
                        defs.subrange(0, i as int),
                        property_definitions_fn(),
                    )[j],
            decreases defs.len() - i,
        {
            proof {
                lemma_flatten_prefix(defs, i as int, property_definitions_fn());
            }
            if let Definition::Property(v) = &self.definitions[i] {
                r.push(v);
            }
            i = i + 1;
        }
        proof {
            lemma_flatten_all(defs, property_definitions_fn());
        }
        r
    }

    /// The rdf definitions, in order.
    pub fn rdf_definitions(&self) -> (r: Vec<&RdfDef>)
        ensures
            r@.len() == flatten(self.spec_definitions(), rdf_definitions_fn()).len(),
            forall|i: int|
                0 <= i < r@.len() ==> *r@[i] == #[trigger] flatten(
                    self.spec_definitions(),
                    rdf_definitions_fn(),
                )[i],
    {
        let ghost defs = self.spec_definitions();
        let mut r: Vec<&RdfDef> = Vec::new();
        let mut i: usize = 0;
        while i < self.definitions.len()
            invariant
                i <= defs.len(),
                self.definitions@ == defs,
                r@.len() == flatten(defs.subrange(0, i as int), rdf_definitions_fn()).len(),
                forall|j: int|
                    0 <= j < r@.len() ==> *r@[j] == #[trigger] flatten(
                        defs.subrange(0, i as int),
                        rdf_definitions_fn(),
                    )[j],
            decreases defs.len() - i,
        {
            proof {
                lemma_flatten_prefix(defs, i as int, rdf_definitions_fn());
            }
            if let Definition::Rdf(v) = &self.definitions[i] {
                r.push(v);
            }
            i = i + 1;
        }
        proof {
            lemma_flatten_all(defs, rdf_definitions_fn());
        }
        r
    }

    /// The structure definitions, in order.
    pub fn structure_definitions(&self) -> (r: Vec<&StructureDef>)
        ensures
            r@.len() == flatten(self.spec_definitions(), structure_definitions_fn()).len(),
            forall|i: int|
                0 <= i < r@.len() ==> *r@[i] == #[trigger] flatten(
                    self.spec_definitions(),
                    structure_definitions_fn(),
                )[i],
    {
        let ghost defs = self.spec_definitions();
        let mut r: Vec<&StructureDef> = Vec::new();
        let mut i: usize = 0;
        while i < self.definitions.len()
            invariant
                i <= defs.len(),
                self.definitions@ == defs,
                r@.len() == flatten(defs.subrange(0, i as int), structure_definitions_fn()).len(),
                forall|j: int|
                    0 <= j < r@.len() ==> *r@[j] == #[trigger] flatten(
                        defs.subrange(0, i as int),
                        structure_definitions_fn(),
                    )[j],
            decreases defs.len() - i,
        {
            proof {
                lemma_flatten_prefix(defs, i as int, structure_definitions_fn());
            }
            if let Definition::Structure(v) = &self.definitions[i] {
                r.push(v);
            }
            i = i + 1;
        }
        proof {
            lemma_flatten_all(defs, structure_definitions_fn());
        }
        r
    }

    /// The type class definitions, in order.
    pub fn type_class_definitions(&self) -> (r: Vec<&TypeClassDef>)
        ensures
            r@.len() == flatten(self.spec_definitions(), type_class_definitions_fn()).len(),
            forall|i: int|
                0 <= i < r@.len() ==> *r@[i] == #[trigger] flatten(
                    self.spec_definitions(),
                    type_class_definitions_fn(),
                )[i],
    {
        let ghost defs = self.spec_definitions();
        let mut r: Vec<&TypeClassDef> = Vec::new();
        let mut i: usize = 0;
        while i < self.definitions.len()
            invariant
                i <= defs.len(),
                self.definitions@ == defs,
                r@.len() == flatten(defs.subrange(0, i as int), type_class_definitions_fn()).len(),
                forall|j: int|
                    0 <= j < r@.len() ==> *r@[j] == #[trigger] flatten(
                        defs.subrange(0, i as int),
                        type_class_definitions_fn(),
                    )[j],
            decreases defs.len() - i,
        {
            proof {
                lemma_flatten_prefix(defs, i as int, type_class_definitions_fn());
            }
            if let Definition::TypeClass(v) = &self.definitions[i] {
                r.push(v);
            }
            i = i + 1;
        }
        proof {
            lemma_flatten_all(defs, type_class_definitions_fn());
        }
        r
    }

    /// The union definitions, in order.
    pub fn union_definitions(&self) -> (r: Vec<&UnionDef>)
        ensures
            r@.len() == flatten(self.spec_definitions(), union_definitions_fn()).len(),
            forall|i: int|
                0 <= i < r@.len() ==> *r@[i] == #[trigger] flatten(
                    self.spec_definitions(),
                    union_definitions_fn(),
                )[i],
    {
        let ghost defs = self.spec_definitions();
        let mut r: Vec<&UnionDef> = Vec::new();
        let mut i: usize = 0;
        while i < self.definitions.len()
            invariant
                i <= defs.len(),
                self.definitions@ == defs,
                r@.len() == flatten(defs.subrange(0, i as int), union_definitions_fn()).len(),
                forall|j: int|
                    0 <= j < r@.len() ==> *r@[j] == #[trigger] flatten(
                        defs.subrange(0, i as int),
                        union_definitions_fn(),
                    )[j],
            decreases defs.len() - i,
        {
            proof {
                lemma_flatten_prefix(defs, i as int, union_definitions_fn());
            }
            if let Definition::Union(v) = &self.definitions[i] {
                r.push(v);
            }
            i = i + 1;
        }
        proof {
            lemma_flatten_all(defs, union_definitions_fn());
        }
        r
    }

    /// The first definition named `name`.
    pub fn get_definition(&self, name: &Identifier) -> (r: Option<&Definition>)
        ensures
            r matches Some(d) ==> find_definition(self.spec_definitions(), name.spec_value())
                == Some(*d),
            r is None <==> find_definition(self.spec_definitions(), name.spec_value()) is None,
    {
        find_definition_in(&self.definitions, name)
    }

    pub fn is_complete(&self) -> (r: bool)
        ensures
            r == self.spec_complete(),
    {
        let mut i: usize = 0;
        while i < self.definitions.len()
            invariant
                i <= self.spec_definitions().len(),
                self.definitions@ == self.spec_definitions(),
                forall|j: int|
                    0 <= j < i ==> (#[trigger] self.spec_definitions()[j]).spec_complete(),
            decreases self.spec_definitions().len() - i,
        {
            if !self.definitions[i].is_complete() {
                return false;
            }
            i = i + 1;
        }
        true
    }
}

/// Corresponds to the grammar rule `module`. A module is a library module when its name is
/// one of the reserved library names; its body knows this from construction on.
#[derive(Debug)]
pub struct Module {
    span: Option<Span>,
    file_id: Option<FileId>,
    source_file: Option<String>,
    name: Identifier,
    base_uri: Option<HeaderValue>,
    version_info: Option<HeaderValue>,
    version_uri: Option<HeaderValue>,
    body: ModuleBody,
}

impl Module {
    pub closed spec fn spec_span(&self) -> Option<Span> {
        self.span
    }

    pub closed spec fn spec_file_id(&self) -> Option<FileId> {
        self.file_id
    }

    pub closed spec fn spec_source_file(&self) -> Option<Seq<char>> {
        match self.source_file {
            Some(f) => Some(f@),
            None => None,
        }
    }

    pub closed spec fn spec_name(&self) -> Identifier {
        self.name
    }

    pub closed spec fn spec_base_uri(&self) -> Option<HeaderValue> {
        self.base_uri
    }

    pub closed spec fn spec_version_info(&self) -> Option<HeaderValue> {
        self.version_info
    }

    pub closed spec fn spec_version_uri(&self) -> Option<HeaderValue> {
        self.version_uri
    }

    pub closed spec fn spec_body(&self) -> ModuleBody {
        self.body
    }

    /// The body's library status follows the module's name.
    pub open spec fn spec_wf(&self) -> bool {
        self.spec_body().spec_is_library() == self.spec_is_library()
    }

    pub open spec fn spec_is_library(&self) -> bool {
        is_library_module_name(self.spec_name().spec_value())
    }

    /// The file id that diagnostics carry: `0` where the module has none.
    pub open spec fn spec_report_file_id(&self) -> FileId {
        match self.spec_file_id() {
            Some(f) => f,
            None => 0,
        }
    }

    /// A library module is never incomplete; another is incomplete when a definition is.
    pub open spec fn spec_incomplete(&self) -> bool {
        !self.spec_is_library() && !self.spec_body().spec_complete()
    }

    pub open spec fn spec_resolve_local(&self, name: Seq<char>) -> Option<Definition> {
        find_definition(self.spec_body().spec_definitions(), name)
    }

    pub fn new(name: Identifier, body: ModuleBody) -> (r: Self)
        ensures
            r.spec_name() == name,
            r.spec_body().spec_imports() == body.spec_imports(),
            r.spec_body().spec_annotations() == body.spec_annotations(),
            r.spec_body().spec_definitions() == body.spec_definitions(),
            r.spec_body().spec_span() == body.spec_span(),
            r.spec_wf(),
            r.spec_file_id() is None,
            r.spec_span() is None,
            r.spec_source_file() is None,
            r.spec_base_uri() is None,
            r.spec_version_info() is None,
            r.spec_version_uri() is None,
    {
        let mut body = body;
        body.set_library_status(&name);
        Module {
            span: None,
            file_id: None,
            source_file: None,
            name,
            base_uri: None,
            version_info: None,
            version_uri: None,
            body,
        }
    }

    /// A module with a base URI.
    pub fn new_with_base(name: Identifier, base_uri: HeaderValue, body: ModuleBody) -> (r: Self)
        ensures
            r.spec_name() == name,
            r.spec_base_uri() == Some(base_uri),
            r.spec_body().spec_imports() == body.spec_imports(),
            r.spec_body().spec_annotations() == body.spec_annotations(),
            r.spec_body().spec_definitions() == body.spec_definitions(),
            r.spec_wf(),
            r.spec_file_id() is None,
            r.spec_version_info() is None,
            r.spec_version_uri() is None,
    {
        Self::new(name, body).with_base_uri(base_uri)
    }

    pub fn empty(name: Identifier) -> (r: Self)
        ensures
            r.spec_name() == name,
            r.spec_body().spec_imports().len() == 0,
            r.spec_body().spec_annotations().len() == 0,
            r.spec_body().spec_definitions().len() == 0,
            r.spec_wf(),
            r.spec_file_id() is None,
            r.spec_version_info() is None,
            r.spec_version_uri() is None,
    {
        Self::new(name, ModuleBody::new())
    }

    pub fn with_ts_span(self, span: Span) -> (r: Self)
        ensures
            r.spec_span() == Some(span),
            r.spec_file_id() == self.spec_file_id(),
            r.spec_source_file() == self.spec_source_file(),
            r.spec_name() == self.spec_name(),
            r.spec_base_uri() == self.spec_base_uri(),
            r.spec_version_info() == self.spec_version_info(),
            r.spec_version_uri() == self.spec_version_uri(),
            r.spec_body() == self.spec_body(),
    {
        Module { span: Some(span), ..self }
    }

    pub fn with_file_id(self, file_id: FileId) -> (r: Self)
        ensures
            r.spec_file_id() == Some(file_id),
            r.spec_body().spec_file_id() == Some(file_id),
            r.spec_body().spec_is_library() == self.spec_body().spec_is_library(),
            r.spec_body().spec_imports() == self.spec_body().spec_imports(),
            r.spec_body().spec_annotations() == self.spec_body().spec_annotations(),
            r.spec_body().spec_definitions() == self.spec_body().spec_definitions(),
            r.spec_name() == self.spec_name(),
            r.spec_span() == self.spec_span(),
            r.spec_version_info() == self.spec_version_info(),
            r.spec_version_uri() == self.spec_version_uri(),
            r.spec_base_uri() == self.spec_base_uri(),
    {
        let mut body = self.body;
        body.file_id = Some(file_id);
        Module { file_id: Some(file_id), body, ..self }
    }

    pub fn with_source_file(self, source_file: String) -> (r: Self)
        ensures
            r.spec_source_file() == Some(source_file@),
            r.spec_name() == self.spec_name(),
            r.spec_body() == self.spec_body(),
            r.spec_file_id() == self.spec_file_id(),
            r.spec_span() == self.spec_span(),
            r.spec_version_info() == self.spec_version_info(),
            r.spec_version_uri() == self.spec_version_uri(),
            r.spec_base_uri() == self.spec_base_uri(),
    {
        Module { source_file: Some(source_file), ..self }
    }

    pub fn with_base_uri(self, base_uri: HeaderValue) -> (r: Self)
        ensures
            r.spec_span() == self.spec_span(),
            r.spec_file_id() == self.spec_file_id(),
            r.spec_source_file() == self.spec_source_file(),
            r.spec_name() == self.spec_name(),
            r.spec_base_uri() == Some(base_uri),
            r.spec_version_info() == self.spec_version_info(),
            r.spec_version_uri() == self.spec_version_uri(),
            r.spec_body() == self.spec_body(),
    {
        Module { base_uri: Some(base_uri), ..self }
    }

    pub fn with_version_info(self, version_info: HeaderValue) -> (r: Self)
        ensures
            r.spec_span() == self.spec_span(),
            r.spec_file_id() == self.spec_file_id(),
            r.spec_source_file() == self.spec_source_file(),
            r.spec_name() == self.spec_name(),
            r.spec_base_uri() == self.spec_base_uri(),
            r.spec_version_info() == Some(version_info),
            r.spec_version_uri() == self.spec_version_uri(),
            r.spec_body() == self.spec_body(),
    {
        Module { version_info: Some(version_info), ..self }
    }

    pub fn with_version_uri(self, version_uri: HeaderValue) -> (r: Self)
        ensures
            r.spec_span() == self.spec_span(),
            r.spec_file_id() == self.spec_file_id(),
            r.spec_source_file() == self.spec_source_file(),
            r.spec_name() == self.spec_name(),
            r.spec_base_uri() == self.spec_base_uri(),
            r.spec_version_info() == self.spec_version_info(),
            r.spec_version_uri() == Some(version_uri),
            r.spec_body() == self.spec_body(),
    {
        Module { version_uri: Some(version_uri), ..self }
    }

    pub fn ts_span(&self) -> (r: Option<Span>)
        ensures
            r == self.spec_span(),
    {
        self.span
    }

    pub fn file_id(&self) -> (r: Option<FileId>)
        ensures
            r == self.spec_file_id(),
    {
        self.file_id
    }

    /// The file id that diagnostics about this module carry.
    pub fn report_file_id(&self) -> (r: FileId)
        ensures
            r == self.spec_report_file_id(),
    {
        match self.file_id {
            Some(f) => f,
            None => 0,
        }
    }

    pub fn source_file(&self) -> (r: Option<&String>)
        ensures
            r matches Some(f) ==> self.spec_source_file() == Some(f@),
            r is None <==> self.spec_source_file() is None,
    {
        self.source_file.as_ref()
    }

    pub fn name(&self) -> (r: &Identifier)
        ensures
            *r == self.spec_name(),
    {
        &self.name
    }

    pub fn base_uri(&self) -> (r: Option<&HeaderValue>)
        ensures
            r matches Some(v) ==> self.spec_base_uri() == Some(*v),
            r is None <==> self.spec_base_uri() is None,
    {
        self.base_uri.as_ref()
    }

    pub fn version_info(&self) -> (r: Option<&HeaderValue>)
        ensures
            r matches Some(v) ==> self.spec_version_info() == Some(*v),
            r is None <==> self.spec_version_info() is None,
    {
        self.version_info.as_ref()
    }

    pub fn version_uri(&self) -> (r: Option<&HeaderValue>)
        ensures
            r matches Some(v) ==> self.spec_version_uri() == Some(*v),
            r is None <==> self.spec_version_uri() is None,
    {
        self.version_uri.as_ref()
    }

    pub fn body(&self) -> (r: &ModuleBody)
        ensures
            *r == self.spec_body(),
    {
        &self.body
    }

    /// Replaces the body, which takes the module's file id and library status.
    pub fn set_body(&mut self, body: ModuleBody)
        ensures
            final(self).spec_body().spec_imports() == body.spec_imports(),
            final(self).spec_body().spec_annotations() == body.spec_annotations(),
            final(self).spec_body().spec_definitions() == body.spec_definitions(),
            final(self).spec_body().spec_file_id() == old(self).spec_file_id(),
            final(self).spec_wf(),
            final(self).spec_name() == old(self).spec_name(),
            final(self).spec_file_id() == old(self).spec_file_id(),
            final(self).spec_span() == old(self).spec_span(),
            final(self).spec_version_info() == old(self).spec_version_info(),
            final(self).spec_version_uri() == old(self).spec_version_uri(),
    {
        let mut body = body;
        body.file_id = self.file_id;
        body.set_library_status(&self.name);
        self.body = body;
    }

    /// Adds a definition to the body; see [`ModuleBody::add_to_definitions`].
    pub fn add_to_definitions(&mut self, definition: Definition) -> (r: Result<
        (),
        LibraryDefinitionNotAllowed,
    >)
        requires
            old(self).spec_wf(),
        ensures
            final(self).spec_wf(),
            r is Err <==> (!old(self).spec_is_library() && definition.spec_is_library_only()),
            r is Ok ==> final(self).spec_body().spec_definitions() == old(
                self,
            ).spec_body().spec_definitions().push(definition),
            r is Err ==> final(self).spec_body() == old(self).spec_body(),
            final(self).spec_body().spec_imports() == old(self).spec_body().spec_imports(),
            final(self).spec_body().spec_annotations() == old(
                self,
            ).spec_body().spec_annotations(),
            final(self).spec_name() == old(self).spec_name(),
            final(self).spec_file_id() == old(self).spec_file_id(),
            final(self).spec_span() == old(self).spec_span(),
            final(self).spec_version_info() == old(self).spec_version_info(),
            final(self).spec_version_uri() == old(self).spec_version_uri(),
    {
        self.body.add_to_definitions(definition)
    }

    /// Adds an import statement to the body.
    pub fn add_to_imports(&mut self, value: ImportStatement)
        requires
            old(self).spec_wf(),
        ensures
            final(self).spec_wf(),
            final(self).spec_body().spec_imports() == old(self).spec_body().spec_imports().push(
                value,
            ),
            final(self).spec_body().spec_annotations() == old(
                self,
            ).spec_body().spec_annotations(),
            final(self).spec_body().spec_definitions() == old(
                self,
            ).spec_body().spec_definitions(),
            final(self).spec_name() == old(self).spec_name(),
            final(self).spec_file_id() == old(self).spec_file_id(),
            final(self).spec_span() == old(self).spec_span(),
            final(self).spec_version_info() == old(self).spec_version_info(),
            final(self).spec_version_uri() == old(self).spec_version_uri(),
    {
        self.body.add_to_imports(value);
    }

    pub fn imported_modules(&self) -> (r: Vec<Identifier>)
        ensures
            identifier_set_of(r@, self.spec_body().spec_imported_modules()),
    {
        distinct_identifiers(self.imported_modules_in_order())
    }

    /// In order of appearance, repeats kept.
    pub(crate) fn imported_modules_in_order(&self) -> (r: Vec<Identifier>)
        ensures
            r@ == self.spec_body().spec_imported_modules(),
    {
        self.body.imported_modules_in_order()
    }

    pub fn imported_types(&self) -> (r: Vec<QualifiedIdentifier>)
        ensures
            qualified_set_of(r@, self.spec_body().spec_imported_types()),
    {
        distinct_qualified_identifiers(self.imported_types_in_order())
    }

    /// In order of appearance, repeats kept.
    pub(crate) fn imported_types_in_order(&self) -> (r: Vec<QualifiedIdentifier>)
        ensures
            r@ == self.spec_body().spec_imported_types(),
    {
        self.body.imported_types_in_order()
    }

    pub fn imported_module_versions(&self) -> (r: Vec<(Identifier, Option<HeaderValue>)>)
        ensures
            lists_versions(
                r@,
                module_versions(
                    Map::empty(),
                    flatten(self.spec_body().spec_imports(), statement_imports_fn()),
                ),
            ),
    {
        self.body.imported_module_versions()
    }

    pub fn defined_names(&self) -> (r: Vec<Identifier>)
        ensures
            identifier_set_of(r@, self.spec_body().spec_defined_names()),
    {
        distinct_identifiers(self.defined_names_in_order())
    }

    /// In order of appearance, repeats kept.
    pub(crate) fn defined_names_in_order(&self) -> (r: Vec<Identifier>)
        ensures
            r@ == self.spec_body().spec_defined_names(),
    {
        self.body.defined_names_in_order()
    }

    pub fn referenced_types(&self) -> (r: Vec<IdentifierReference>)
        ensures
            reference_set_of(r@, self.spec_body().spec_referenced_types()),
    {
        distinct_references(self.referenced_types_in_order())
    }

    /// In order of appearance, repeats kept.
    pub(crate) fn referenced_types_in_order(&self) -> (r: Vec<IdentifierReference>)
        ensures
            r@ == self.spec_body().spec_referenced_types(),
    {
        self.body.referenced_types_in_order()
    }

    pub fn referenced_annotations(&self) -> (r: Vec<IdentifierReference>)
        ensures
            reference_set_of(r@, self.spec_body().spec_referenced_annotations()),
    {
        distinct_references(self.referenced_annotations_in_order())
    }

    /// In order of appearance, repeats kept.
    pub(crate) fn referenced_annotations_in_order(&self) -> (r: Vec<IdentifierReference>)
        ensures
            r@ == self.spec_body().spec_referenced_annotations(),
    {
        self.body.referenced_annotations_in_order()
    }

    pub fn is_library_module(&self) -> (r: bool)
        ensures
            r == self.spec_is_library(),
    {
        self.name.is_library_module_name()
    }

    /// The first definition of this module named `name`.
    pub fn resolve_local(&self, name: &Identifier) -> (r: Option<&Definition>)
        ensures
            r matches Some(d) ==> self.spec_resolve_local(name.spec_value()) == Some(*d),
            r is None <==> self.spec_resolve_local(name.spec_value()) is None,
    {
        self.body.get_definition(name)
    }

    /// Whether some definition lacks a body it needs; library modules never do. This looks
    /// at the module alone, never at the store.
    pub fn is_incomplete(&self, _store: &ModuleStore) -> (r: bool)
        ensures
            r == self.spec_incomplete(),
    {
        if !self.is_library_module() {
            !self.body.is_complete()
        } else {
            false
        }
    }
}

/// The first module of `modules` named `name`.
pub open spec fn find_module(modules: Seq<Module>, name: Seq<char>) -> Option<Module>
    decreases modules.len(),
{
    if modules.len() == 0 {
        None
    } else if modules[0].spec_name().spec_value() == name {
        Some(modules[0])
    } else {
        find_module(modules.drop_first(), name)
    }
}

/// The loaded modules of a session, by name. A module registered under a name that is
/// already taken hides the earlier one.
#[derive(Debug)]
pub struct ModuleStore {
    modules: Vec<Module>,
}

impl ModuleStore {
    pub closed spec fn spec_modules(&self) -> Seq<Module> {
        self.modules@
    }

    pub open spec fn spec_get(&self, name: Seq<char>) -> Option<Module> {
        find_module(self.spec_modules(), name)
    }

    pub fn new() -> (r: Self)
        ensures
            r.spec_modules().len() == 0,
    {
        ModuleStore { modules: Vec::new() }
    }

    /// Registers a module; it is found by its name from now on.
    pub fn insert(&mut self, module: Module)
        ensures
            final(self).spec_modules() == seq![module] + old(self).spec_modules(),
            final(self).spec_get(module.spec_name().spec_value()) == Some(module),
    {
        self.modules.insert(0, module);
        assert(self.modules@ =~= seq![module] + old(self).spec_modules());
    }

    pub fn len(&self) -> (r: usize)
        ensures
            r == self.spec_modules().len(),
    {
        self.modules.len()
    }

    pub fn get(&self, name: &Identifier) -> (r: Option<&Module>)
        ensures
            r matches Some(m) ==> self.spec_get(name.spec_value()) == Some(*m),
            r is None <==> self.spec_get(name.spec_value()) is None,
    {
        let mut i: usize = 0;
        assert(self.modules@.subrange(0, self.modules@.len() as int) =~= self.modules@);
        while i < self.modules.len()
            invariant
                i <= self.modules@.len(),
                self.modules@ == self.spec_modules(),
                find_module(self.modules@, name.spec_value()) == find_module(
                    self.modules@.subrange(i as int, self.modules@.len() as int),
                    name.spec_value(),
                ),
            decreases self.modules@.len() - i,
        {
            let ghost rest = self.modules@.subrange(i as int, self.modules@.len() as int);
            assert(rest.drop_first() =~= self.modules@.subrange(i + 1, self.modules@.len() as int));
            assert(rest[0] == self.modules@[i as int]);
            if self.modules[i].name() == name {
                return Some(&self.modules[i]);
            }
            i = i + 1;
        }
        None
    }

    pub fn contains(&self, name: &Identifier) -> (r: bool)
        ensures
            r == self.spec_get(name.spec_value()) is Some,
    {
        self.get(name).is_some()
    }

    /// The base URI of the module registered as `name`, where it has one.
    pub fn url_for_identifier(&self, name: &Identifier) -> (r: Option<&HeaderValue>)
        ensures
            r matches Some(u) ==> self.spec_get(name.spec_value()) matches Some(m)
                && m.spec_base_uri() == Some(*u),
            r is None <==> (self.spec_get(name.spec_value()) matches Some(m) ==> m.spec_base_uri() is None),
    {
        match self.get(name) {
            Some(m) => m.base_uri(),
            None => None,
        }
    }
}

/// What a reference names: a definition of the current module for a plain identifier, a
/// definition of the module that the store holds under the qualifier otherwise.
pub open spec fn spec_resolve(
    reference: IdentifierReference,
    current: Module,
    store: ModuleStore,
) -> Option<Definition> {
    match reference {
        IdentifierReference::Identifier(id) => current.spec_resolve_local(id.spec_value()),
        IdentifierReference::QualifiedIdentifier(q) => match store.spec_get(
            q.spec_module().spec_value(),
        ) {
            Some(m) => m.spec_resolve_local(q.spec_member().spec_value()),
            None => None,
        },
    }
}

pub fn resolve<'a>(
    reference: &IdentifierReference,
    current: &'a Module,
    store: &'a ModuleStore,
) -> (r: Option<&'a Definition>)
    ensures
        r matches Some(d) ==> spec_resolve(*reference, *current, *store) == Some(*d),
        r is None <==> spec_resolve(*reference, *current, *store) is None,
{
    match reference {
        IdentifierReference::Identifier(id) => current.resolve_local(id),
        IdentifierReference::QualifiedIdentifier(q) => match store.get(q.module()) {
            Some(m) => m.resolve_local(q.member()),
            None => None,
        },
    }
}

impl HasAnnotations for ModuleBody {
    open spec fn annotations_view(&self) -> Seq<Annotation> {
        self.spec_annotations()
    }

    fn annotations(&self) -> (r: &Vec<Annotation>) {
        &self.annotations
    }
}

} // verus!
