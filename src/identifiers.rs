//! Source spans, identifiers and references to named things, and the case conventions
//! that names are expected to follow.
use vstd::prelude::*;

verus! {

/// A byte range in a source file.
#[derive(Clone, Copy, Debug, PartialEq, Eq, Structural)]
pub struct Span {
    start: usize,
    end: usize,
}

impl Span {
    pub closed spec fn spec_start(&self) -> usize {
        self.start
    }

    pub closed spec fn spec_end(&self) -> usize {
        self.end
    }

    pub fn new(start: usize, end: usize) -> (r: Self)
        requires
            start <= end,
        ensures
            r.spec_start() == start,
            r.spec_end() == end,
    {
        Span { start, end }
    }

    pub fn start(&self) -> (r: usize)
        ensures
            r == self.spec_start(),
    {
        self.start
    }

    pub fn end(&self) -> (r: usize)
        ensures
            r == self.spec_end(),
    {
        self.end
    }
}

/// The naming convention that the syntactic position of an identifier asks for.
#[derive(Clone, Copy, Debug, PartialEq, Eq, Structural)]
pub enum IdentifierCaseConvention {
    Module,
    Member,
    TypeDefinition,
    ValueVariant,
    RdfDefinition,
}

pub open spec fn is_lower_letter(c: char) -> bool {
    'a' <= c && c <= 'z'
}

pub open spec fn is_upper_letter(c: char) -> bool {
    'A' <= c && c <= 'Z'
}

pub open spec fn is_digit(c: char) -> bool {
    '0' <= c && c <= '9'
}

/// Whether `c` may follow the first character of a name; upper case letters and the
/// underscore are allowed only where asked for.
pub open spec fn is_allowed_tail_char(c: char, upper: bool, underscore: bool) -> bool {
    is_lower_letter(c) || is_digit(c) || (upper && is_upper_letter(c)) || (underscore && c
        == '_')
}

pub open spec fn tail_is_allowed(s: Seq<char>, upper: bool, underscore: bool) -> bool {
    forall|i: int| 1 <= i < s.len() ==> is_allowed_tail_char(#[trigger] s[i], upper, underscore)
}

/// `lower_snake_case`: a lower case letter, then lower case letters, digits and `_`.
pub open spec fn is_lower_snake_case(s: Seq<char>) -> bool {
    s.len() > 0 && is_lower_letter(s[0]) && tail_is_allowed(s, false, true)
}

/// `UpperCamelCase`: an upper case letter, then letters and digits.
pub open spec fn is_upper_camel_case(s: Seq<char>) -> bool {
    s.len() > 0 && is_upper_letter(s[0]) && tail_is_allowed(s, true, false)
}

/// `camelCase` or `UpperCamelCase`: a letter, then letters and digits.
pub open spec fn is_mixed_camel_case(s: Seq<char>) -> bool {
    s.len() > 0 && (is_lower_letter(s[0]) || is_upper_letter(s[0])) && tail_is_allowed(
        s,
        true,
        false,
    )
}

pub open spec fn follows_convention(s: Seq<char>, convention: IdentifierCaseConvention) -> bool {
    match convention {
        IdentifierCaseConvention::Module => is_lower_snake_case(s),
        IdentifierCaseConvention::Member => is_lower_snake_case(s),
        IdentifierCaseConvention::TypeDefinition => is_upper_camel_case(s),
        IdentifierCaseConvention::ValueVariant => is_upper_camel_case(s),
        IdentifierCaseConvention::RdfDefinition => is_mixed_camel_case(s),
    }
}

/// The names reserved for the modules of the standard library.
pub open spec fn is_library_module_name(s: Seq<char>) -> bool {
    s == "dc"@ || s == "dc_terms"@ || s == "owl"@ || s == "rdf"@ || s == "rdfs"@ || s
        == "sdml"@ || s == "skos"@ || s == "xsd"@
}

fn text_equals(a: &String, b: &str) -> (r: bool)
    ensures
        r == (a@ == b@),
{
    *a == b.to_owned()
}

fn char_is_lower(c: char) -> (r: bool)
    ensures
        r == is_lower_letter(c),
{
    'a' <= c && c <= 'z'
}

fn char_is_upper(c: char) -> (r: bool)
    ensures
        r == is_upper_letter(c),
{
    'A' <= c && c <= 'Z'
}

fn tail_chars_allowed(s: &str, upper: bool, underscore: bool) -> (r: bool)
    ensures
        r == tail_is_allowed(s@, upper, underscore),
{
    let len = s.unicode_len();
    let mut i: usize = 1;
    while i < len
        invariant
            len == s@.len(),
            1 <= i,
            forall|j: int| 1 <= j < i ==> is_allowed_tail_char(#[trigger] s@[j], upper, underscore),
        decreases len - i,
    {
        let c = s.get_char(i);
        let ok = char_is_lower(c) || ('0' <= c && c <= '9') || (upper && char_is_upper(c)) || (
        underscore && c == '_');
        if !ok {
            assert(!is_allowed_tail_char(s@[i as int], upper, underscore));
            return false;
        }
        i = i + 1;
    }
    true
}

/// Corresponds to the grammar rule `identifier`: a case-sensitive name. Two identifiers
/// are equal when their text is, wherever they were written.
#[derive(Debug)]
pub struct Identifier {
    span: Option<Span>,
    value: String,
}

impl PartialEq for Identifier {
    fn eq(&self, other: &Identifier) -> (r: bool) {
        self.value == other.value
    }
}

impl vstd::std_specs::cmp::PartialEqSpecImpl for Identifier {
    open spec fn obeys_eq_spec() -> bool {
        true
    }

    open spec fn eq_spec(&self, other: &Identifier) -> bool {
        self.spec_value() == other.spec_value()
    }
}

impl Identifier {
    pub closed spec fn spec_span(&self) -> Option<Span> {
        self.span
    }

    /// The identifier's text.
    pub closed spec fn spec_value(&self) -> Seq<char> {
        self.value@
    }

    pub fn new_unchecked(s: &str) -> (r: Self)
        ensures
            r.spec_value() == s@,
            r.spec_span() is None,
    {
        Identifier { span: None, value: s.to_owned() }
    }

    pub fn with_ts_span(self, span: Span) -> (r: Self)
        ensures
            r.spec_value() == self.spec_value(),
            r.spec_span() == Some(span),
    {
        Identifier { span: Some(span), ..self }
    }

    pub fn ts_span(&self) -> (r: Option<Span>)
        ensures
            r == self.spec_span(),
    {
        self.span
    }

    pub fn value(&self) -> (r: &String)
        ensures
            r@ == self.spec_value(),
    {
        &self.value
    }

    /// A copy that keeps the text and the span.
    pub fn duplicate(&self) -> (r: Self)
        ensures
            r == *self,
    {
        Identifier { span: self.span, value: self.value.clone() }
    }

    pub fn is_library_module_name(&self) -> (r: bool)
        ensures
            r == is_library_module_name(self.spec_value()),
    {
        text_equals(&self.value, "dc") || text_equals(&self.value, "dc_terms") || text_equals(
            &self.value,
            "owl",
        ) || text_equals(&self.value, "rdf") || text_equals(&self.value, "rdfs") || text_equals(
            &self.value,
            "sdml",
        ) || text_equals(&self.value, "skos") || text_equals(&self.value, "xsd")
    }

    pub fn is_lower_snake_case(&self) -> (r: bool)
        ensures
            r == is_lower_snake_case(self.spec_value()),
    {
        let s = self.value.as_str();
        if s.unicode_len() == 0 {
            return false;
        }
        char_is_lower(s.get_char(0)) && tail_chars_allowed(s, false, true)
    }

    pub fn is_upper_camel_case(&self) -> (r: bool)
        ensures
            r == is_upper_camel_case(self.spec_value()),
    {
        let s = self.value.as_str();
        if s.unicode_len() == 0 {
            return false;
        }
        char_is_upper(s.get_char(0)) && tail_chars_allowed(s, true, false)
    }

    pub fn is_mixed_camel_case(&self) -> (r: bool)
        ensures
            r == is_mixed_camel_case(self.spec_value()),
    {
        let s = self.value.as_str();
        if s.unicode_len() == 0 {
            return false;
        }
        let c = s.get_char(0);
        (char_is_lower(c) || char_is_upper(c)) && tail_chars_allowed(s, true, false)
    }

    pub fn follows_convention(&self, convention: IdentifierCaseConvention) -> (r: bool)
        ensures
            r == follows_convention(self.spec_value(), convention),
    {
        match convention {
            IdentifierCaseConvention::Module => self.is_lower_snake_case(),
            IdentifierCaseConvention::Member => self.is_lower_snake_case(),
            IdentifierCaseConvention::TypeDefinition => self.is_upper_camel_case(),
            IdentifierCaseConvention::ValueVariant => self.is_upper_camel_case(),
            IdentifierCaseConvention::RdfDefinition => self.is_mixed_camel_case(),
        }
    }
}

/// Corresponds to the grammar rule `qualified_identifier`: a member of a named module.
#[derive(Debug)]
pub struct QualifiedIdentifier {
    span: Option<Span>,
    module: Identifier,
    member: Identifier,
}

impl QualifiedIdentifier {
    pub closed spec fn spec_span(&self) -> Option<Span> {
        self.span
    }

    pub closed spec fn spec_module(&self) -> Identifier {
        self.module
    }

    pub closed spec fn spec_member(&self) -> Identifier {
        self.member
    }

    pub fn new(module: Identifier, member: Identifier) -> (r: Self)
        ensures
            r.spec_module() == module,
            r.spec_member() == member,
            r.spec_span() is None,
    {
        QualifiedIdentifier { span: None, module, member }
    }

    pub fn with_ts_span(self, span: Span) -> (r: Self)
        ensures
            r.spec_module() == self.spec_module(),
            r.spec_member() == self.spec_member(),
            r.spec_span() == Some(span),
    {
        QualifiedIdentifier { span: Some(span), ..self }
    }

    pub fn ts_span(&self) -> (r: Option<Span>)
        ensures
            r == self.spec_span(),
    {
        self.span
    }

    pub fn module(&self) -> (r: &Identifier)
        ensures
            *r == self.spec_module(),
    {
        &self.module
    }

    pub fn member(&self) -> (r: &Identifier)
        ensures
            *r == self.spec_member(),
    {
        &self.member
    }

    /// The qualified name as written: `module:member`.
    pub open spec fn spec_text(&self) -> Seq<char> {
        self.spec_module().spec_value() + ":"@ + self.spec_member().spec_value()
    }

    pub fn to_text(&self) -> (r: String)
        ensures
            r@ == self.spec_text(),
    {
        let mut text = self.module.value.clone();
        text.append(":");
        text.append(self.member.value.as_str());
        text
    }

    pub fn duplicate(&self) -> (r: Self)
        ensures
            r == *self,
    {
        QualifiedIdentifier {
            span: self.span,
            module: self.module.duplicate(),
            member: self.member.duplicate(),
        }
    }
}

/// Corresponds to the grammar rule `identifier_reference`: a name in the current module,
/// or a member of another.
#[derive(Debug)]
pub enum IdentifierReference {
    Identifier(Identifier),
    QualifiedIdentifier(QualifiedIdentifier),
}

impl IdentifierReference {
    pub open spec fn spec_span(&self) -> Option<Span> {
        match self {
            IdentifierReference::Identifier(v) => v.spec_span(),
            IdentifierReference::QualifiedIdentifier(v) => v.spec_span(),
        }
    }

    pub fn ts_span(&self) -> (r: Option<Span>)
        ensures
            r == self.spec_span(),
    {
        match self {
            IdentifierReference::Identifier(v) => v.ts_span(),
            IdentifierReference::QualifiedIdentifier(v) => v.ts_span(),
        }
    }

    pub open spec fn spec_text(&self) -> Seq<char> {
        match self {
            IdentifierReference::Identifier(v) => v.spec_value(),
            IdentifierReference::QualifiedIdentifier(v) => v.spec_text(),
        }
    }

    /// The reference as written.
    pub fn to_text(&self) -> (r: String)
        ensures
            r@ == self.spec_text(),
    {
        match self {
            IdentifierReference::Identifier(v) => v.value.clone(),
            IdentifierReference::QualifiedIdentifier(v) => v.to_text(),
        }
    }

    /// Whether two references are written the same, wherever each was written.
    pub open spec fn spec_same_as(&self, other: IdentifierReference) -> bool {
        match (*self, other) {
            (IdentifierReference::Identifier(a), IdentifierReference::Identifier(b)) => a.spec_value()
                == b.spec_value(),
            (
                IdentifierReference::QualifiedIdentifier(a),
                IdentifierReference::QualifiedIdentifier(b),
            ) => a.spec_module().spec_value() == b.spec_module().spec_value()
                && a.spec_member().spec_value() == b.spec_member().spec_value(),
            _ => false,
        }
    }

    pub fn same_as(&self, other: &IdentifierReference) -> (r: bool)
        ensures
            r == self.spec_same_as(*other),
    {
        match (self, other) {
            (IdentifierReference::Identifier(a), IdentifierReference::Identifier(b)) => a == b,
            (
                IdentifierReference::QualifiedIdentifier(a),
                IdentifierReference::QualifiedIdentifier(b),
            ) => a.module() == b.module() && a.member() == b.member(),
            _ => false,
        }
    }

    /// Whether this is the qualified name `module:member`.
    pub open spec fn spec_is_qualified_as(&self, module: Seq<char>, member: Seq<char>) -> bool {
        match *self {
            IdentifierReference::QualifiedIdentifier(q) => q.spec_module().spec_value() == module
                && q.spec_member().spec_value() == member,
            IdentifierReference::Identifier(_) => false,
        }
    }

    pub fn is_qualified_as(&self, module: &str, member: &str) -> (r: bool)
        ensures
            r == self.spec_is_qualified_as(module@, member@),
    {
        match self {
            IdentifierReference::QualifiedIdentifier(q) => *q.module().value() == module.to_owned()
                && *q.member().value() == member.to_owned(),
            IdentifierReference::Identifier(_) => false,
        }
    }

    pub fn is_identifier(&self) -> (r: bool)
        ensures
            r == (self is Identifier),
    {
        matches!(self, IdentifierReference::Identifier(_))
    }

    pub fn is_qualified_identifier(&self) -> (r: bool)
        ensures
            r == (self is QualifiedIdentifier),
    {
        matches!(self, IdentifierReference::QualifiedIdentifier(_))
    }

    pub fn duplicate(&self) -> (r: Self)
        ensures
            r == *self,
    {
        match self {
            IdentifierReference::Identifier(v) => IdentifierReference::Identifier(v.duplicate()),
            IdentifierReference::QualifiedIdentifier(v) => IdentifierReference::QualifiedIdentifier(
                v.duplicate(),
            ),
        }
    }
}

/// Whether some item of `r` is like `x`.
pub open spec fn reference_set_of_has(r: Seq<IdentifierReference>, x: IdentifierReference) -> bool {
    exists|j: int| 0 <= j < r.len() && (#[trigger] r[j]).spec_same_as(x)
}

/// `r` holds the references of `s`, each written form once (compared with [`IdentifierReference::same_as`]): no two of `r` are the same, each item of `s` has
/// its like in `r`, and each item of `r` is an item of `s`.
pub open spec fn reference_set_of(r: Seq<IdentifierReference>, s: Seq<IdentifierReference>) -> bool {
    &&& forall|i: int, j: int|
        0 <= i < j < r.len() ==> !(#[trigger] r[i]).spec_same_as((#[trigger] r[j]))
    &&& forall|i: int|
        0 <= i < s.len() ==> reference_set_of_has(r, #[trigger] s[i])
    &&& forall|j: int|
        0 <= j < r.len() ==> s.contains(#[trigger] r[j])
}

/// The items of `items` without repeats, each kept where it first occurs.
pub fn distinct_references(items: Vec<IdentifierReference>) -> (r: Vec<IdentifierReference>)
    ensures
        reference_set_of(r@, items@),
{
    let ghost given = items@;
    let mut rest = items;
    let mut kept: Vec<IdentifierReference> = Vec::new();
    let ghost mut k: int = 0;
    while rest.len() > 0
        invariant
            0 <= k <= given.len(),
            rest@ == given.subrange(k, given.len() as int),
            forall|i: int, j: int|
                0 <= i < j < kept@.len() ==> !(#[trigger] kept@[i]).spec_same_as((#[trigger] kept@[j])),
            forall|i: int| 0 <= i < k ==> reference_set_of_has(kept@, #[trigger] given[i]),
            forall|j: int| 0 <= j < kept@.len() ==> given.contains(#[trigger] kept@[j]),
        decreases rest@.len(),
    {
        let item = rest.remove(0);
        assert(item == given[k]);
        let ghost before = kept@;
        let mut j: usize = 0;
        while j < kept.len() && !kept[j].same_as(&item)
            invariant
                j <= kept@.len(),
                kept@ == before,
                forall|l: int| 0 <= l < j ==> !(#[trigger] kept@[l]).spec_same_as(item),
            decreases kept@.len() - j,
        {
            j = j + 1;
        }
        if j == kept.len() {
            kept.push(item);
            proof {
                let last = before.len() as int;
                assert(kept@[last] == given[k]);
                assert forall|i: int| 0 <= i < k + 1 implies reference_set_of_has(kept@, #[trigger] given[i]) by {
                    if i < k {
                        let w = choose|w: int|
                            0 <= w < before.len() && (#[trigger] before[w]).spec_same_as(given[i]);
                        assert(kept@[w] == before[w]);
                        assert(kept@[w].spec_same_as(given[i]));
                    } else {
                        assert(kept@[last].spec_same_as(given[i]));
                    }
                }
                assert forall|w: int| 0 <= w < kept@.len() implies given.contains(#[trigger] kept@[w]) by {
                    if w == last {
                        assert(given[k] == kept@[w]);
                    } else {
                        assert(kept@[w] == before[w]);
                    }
                }
            }
        } else {
            proof {
                assert(kept@[j as int].spec_same_as(given[k]));
                assert(reference_set_of_has(kept@, given[k]));
            }
        }
        proof {
            assert(rest@ =~= given.subrange(k + 1, given.len() as int));
            k = k + 1;
        }
    }
    kept
}

/// Whether some item of `r` is like `x`.
pub open spec fn identifier_set_of_has(r: Seq<Identifier>, x: Identifier) -> bool {
    exists|j: int| 0 <= j < r.len() && ((#[trigger] r[j]).spec_value() == x.spec_value())
}

/// `r` holds the identifiers of `s`, each text once: no two of `r` are the same, each item of `s` has
/// its like in `r`, and each item of `r` is an item of `s`.
pub open spec fn identifier_set_of(r: Seq<Identifier>, s: Seq<Identifier>) -> bool {
    &&& forall|i: int, j: int|
        0 <= i < j < r.len() ==> !((#[trigger] r[i]).spec_value() == (#[trigger] r[j]).spec_value())
    &&& forall|i: int|
        0 <= i < s.len() ==> identifier_set_of_has(r, #[trigger] s[i])
    &&& forall|j: int|
        0 <= j < r.len() ==> s.contains(#[trigger] r[j])
}

/// The items of `items` without repeats, each kept where it first occurs.
pub fn distinct_identifiers(items: Vec<Identifier>) -> (r: Vec<Identifier>)
    ensures
        identifier_set_of(r@, items@),
{
    let ghost given = items@;
    let mut rest = items;
    let mut kept: Vec<Identifier> = Vec::new();
    let ghost mut k: int = 0;
    while rest.len() > 0
        invariant
            0 <= k <= given.len(),
            rest@ == given.subrange(k, given.len() as int),
            forall|i: int, j: int|
                0 <= i < j < kept@.len() ==> !((#[trigger] kept@[i]).spec_value() == (#[trigger] kept@[j]).spec_value()),
            forall|i: int| 0 <= i < k ==> identifier_set_of_has(kept@, #[trigger] given[i]),
            forall|j: int| 0 <= j < kept@.len() ==> given.contains(#[trigger] kept@[j]),
        decreases rest@.len(),
    {
        let item = rest.remove(0);
        assert(item == given[k]);
        let ghost before = kept@;
        let mut j: usize = 0;
        while j < kept.len() && !(kept[j] == item)
            invariant
                j <= kept@.len(),
                kept@ == before,
                forall|l: int| 0 <= l < j ==> !((#[trigger] kept@[l]).spec_value() == item.spec_value()),
            decreases kept@.len() - j,
        {
            j = j + 1;
        }
        if j == kept.len() {
            kept.push(item);
            proof {
                let last = before.len() as int;
                assert(kept@[last] == given[k]);
                assert forall|i: int| 0 <= i < k + 1 implies identifier_set_of_has(kept@, #[trigger] given[i]) by {
                    if i < k {
                        let w = choose|w: int|
                            0 <= w < before.len() && ((#[trigger] before[w]).spec_value() == given[i].spec_value());
                        assert(kept@[w] == before[w]);
                        assert((kept@[w].spec_value() == given[i].spec_value()));
                    } else {
                        assert((kept@[last].spec_value() == given[i].spec_value()));
                    }
                }
                assert forall|w: int| 0 <= w < kept@.len() implies given.contains(#[trigger] kept@[w]) by {
                    if w == last {
                        assert(given[k] == kept@[w]);
                    } else {
                        assert(kept@[w] == before[w]);
                    }
                }
            }
        } else {
            proof {
                assert((kept@[j as int].spec_value() == given[k].spec_value()));
                assert(identifier_set_of_has(kept@, given[k]));
            }
        }
        proof {
            assert(rest@ =~= given.subrange(k + 1, given.len() as int));
            k = k + 1;
        }
    }
    kept
}

/// Whether some item of `r` is like `x`.
pub open spec fn qualified_set_of_has(r: Seq<QualifiedIdentifier>, x: QualifiedIdentifier) -> bool {
    exists|j: int| 0 <= j < r.len() && ((#[trigger] r[j]).spec_module().spec_value() == x.spec_module().spec_value() && (#[trigger] r[j]).spec_member().spec_value() == x.spec_member().spec_value())
}

/// `r` holds the qualified identifiers of `s`, each `module:member` once: no two of `r` are the same, each item of `s` has
/// its like in `r`, and each item of `r` is an item of `s`.
pub open spec fn qualified_set_of(r: Seq<QualifiedIdentifier>, s: Seq<QualifiedIdentifier>) -> bool {
    &&& forall|i: int, j: int|
        0 <= i < j < r.len() ==> !((#[trigger] r[i]).spec_module().spec_value() == (#[trigger] r[j]).spec_module().spec_value() && (#[trigger] r[i]).spec_member().spec_value() == (#[trigger] r[j]).spec_member().spec_value())
    &&& forall|i: int|
        0 <= i < s.len() ==> qualified_set_of_has(r, #[trigger] s[i])
    &&& forall|j: int|
        0 <= j < r.len() ==> s.contains(#[trigger] r[j])
}

/// The items of `items` without repeats, each kept where it first occurs.
pub fn distinct_qualified_identifiers(items: Vec<QualifiedIdentifier>) -> (r: Vec<QualifiedIdentifier>)
    ensures
        qualified_set_of(r@, items@),
{
    let ghost given = items@;
    let mut rest = items;
    let mut kept: Vec<QualifiedIdentifier> = Vec::new();
    let ghost mut k: int = 0;
    while rest.len() > 0
        invariant
            0 <= k <= given.len(),
            rest@ == given.subrange(k, given.len() as int),
            forall|i: int, j: int|
                0 <= i < j < kept@.len() ==> !((#[trigger] kept@[i]).spec_module().spec_value() == (#[trigger] kept@[j]).spec_module().spec_value() && (#[trigger] kept@[i]).spec_member().spec_value() == (#[trigger] kept@[j]).spec_member().spec_value()),
            forall|i: int| 0 <= i < k ==> qualified_set_of_has(kept@, #[trigger] given[i]),
            forall|j: int| 0 <= j < kept@.len() ==> given.contains(#[trigger] kept@[j]),
        decreases rest@.len(),
    {
        let item = rest.remove(0);
        assert(item == given[k]);
        let ghost before = kept@;
        let mut j: usize = 0;
        while j < kept.len() && !(kept[j].module() == item.module() && kept[j].member() == item.member())
            invariant
                j <= kept@.len(),
                kept@ == before,
                forall|l: int| 0 <= l < j ==> !((#[trigger] kept@[l]).spec_module().spec_value() == item.spec_module().spec_value() && (#[trigger] kept@[l]).spec_member().spec_value() == item.spec_member().spec_value()),
            decreases kept@.len() - j,
        {
            j = j + 1;
        }
        if j == kept.len() {
            kept.push(item);
            proof {
                let last = before.len() as int;
                assert(kept@[last] == given[k]);
                assert forall|i: int| 0 <= i < k + 1 implies qualified_set_of_has(kept@, #[trigger] given[i]) by {
                    if i < k {
                        let w = choose|w: int|
                            0 <= w < before.len() && ((#[trigger] before[w]).spec_module().spec_value() == given[i].spec_module().spec_value() && (#[trigger] before[w]).spec_member().spec_value() == given[i].spec_member().spec_value());
                        assert(kept@[w] == before[w]);
                        assert((kept@[w].spec_module().spec_value() == given[i].spec_module().spec_value() && kept@[w].spec_member().spec_value() == given[i].spec_member().spec_value()));
                    } else {
                        assert((kept@[last].spec_module().spec_value() == given[i].spec_module().spec_value() && kept@[last].spec_member().spec_value() == given[i].spec_member().spec_value()));
                    }
                }
                assert forall|w: int| 0 <= w < kept@.len() implies given.contains(#[trigger] kept@[w]) by {
                    if w == last {
                        assert(given[k] == kept@[w]);
                    } else {
                        assert(kept@[w] == before[w]);
                    }
                }
            }
        } else {
            proof {
                assert((kept@[j as int].spec_module().spec_value() == given[k].spec_module().spec_value() && kept@[j as int].spec_member().spec_value() == given[k].spec_member().spec_value()));
                assert(qualified_set_of_has(kept@, given[k]));
            }
        }
        proof {
            assert(rest@ =~= given.subrange(k + 1, given.len() as int));
            k = k + 1;
        }
    }
    kept
}

} // verus!
