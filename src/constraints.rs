//! Constraints: named informal (natural language) or formal statements attached to a
//! definition. Validation recurses into them; it never evaluates them.
use crate::diagnostics::{case_diagnostics, validate_case, Diagnostic, FileId};
use crate::identifiers::{Identifier, IdentifierCaseConvention, Span};
use regex::Regex;
use vstd::prelude::*;

verus! {

/// A language tag: an ISO-639 code of two or three lower case letters, optionally followed
/// by `-` and the name of a controlled language scheme (`en`, `en-ACE`).
pub const LANGUAGE_TAG_PATTERN: &'static str = "^[a-z]{2,3}(-[A-Z][A-Za-z]{1,9})?$";

/// Whether `text` matches the regular expression `pattern`; false where the pattern does
/// not compile.
pub uninterp spec fn regex_matches(pattern: Seq<char>, text: Seq<char>) -> bool;

/// Relies on `regex::Regex::new` and `regex::Regex::is_match`: the answer depends on the
/// pattern and the text alone.
#[verifier::external_body]
fn pattern_matches(pattern: &str, text: &str) -> (r: bool)
    ensures
        r == regex_matches(pattern@, text@),
{
    match Regex::new(pattern) {
        Ok(re) => re.is_match(text),
        Err(_) => false,
    }
}

/// The error of reading a language tag that does not match [`LANGUAGE_TAG_PATTERN`].
#[derive(Debug)]
pub struct InvalidLanguageTag {
    value: String,
}

impl InvalidLanguageTag {
    pub closed spec fn spec_value(&self) -> Seq<char> {
        self.value@
    }

    pub fn value(&self) -> (r: &String)
        ensures
            r@ == self.spec_value(),
    {
        &self.value
    }
}

/// Corresponds to the grammar rule `controlled_language_tag`.
#[derive(Debug)]
pub struct ControlledLanguageTag {
    span: Option<Span>,
    value: String,
}

impl ControlledLanguageTag {
    pub closed spec fn spec_span(&self) -> Option<Span> {
        self.span
    }

    pub closed spec fn spec_value(&self) -> Seq<char> {
        self.value@
    }

    pub fn new_unchecked(s: &str) -> (r: Self)
        ensures
            r.spec_value() == s@,
            r.spec_span() is None,
    {
        ControlledLanguageTag { span: None, value: s.to_owned() }
    }

    /// Reads a tag, refusing text that does not match [`LANGUAGE_TAG_PATTERN`].
    pub fn from_str(s: &str) -> (r: Result<Self, InvalidLanguageTag>)
        ensures
            r is Ok <==> regex_matches(LANGUAGE_TAG_PATTERN@, s@),
            r matches Ok(t) ==> t.spec_value() == s@ && t.spec_span() is None,
            r matches Err(e) ==> e.spec_value() == s@,
    {
        Self::from_checked(s, Self::is_valid(s))
    }

    /// Makes a tag of `s` where `valid` says that it matches the pattern, and refuses it
    /// otherwise.
    pub fn from_checked(s: &str, valid: bool) -> (r: Result<Self, InvalidLanguageTag>)
        ensures
            r is Ok <==> valid,
            r matches Ok(t) ==> t.spec_value() == s@ && t.spec_span() is None,
            r matches Err(e) ==> e.spec_value() == s@,
    {
        if valid {
            Ok(ControlledLanguageTag { span: None, value: s.to_owned() })
        } else {
            Err(InvalidLanguageTag { value: s.to_owned() })
        }
    }

    pub fn with_ts_span(self, ts_span: Span) -> (r: Self)
        ensures
            r.spec_span() == Some(ts_span),
            r.spec_value() == self.spec_value(),
    {
        ControlledLanguageTag { span: Some(ts_span), ..self }
    }

    pub fn has_ts_span(&self) -> (r: bool)
        ensures
            r == self.spec_span() is Some,
    {
        self.span.is_some()
    }

    pub fn ts_span(&self) -> (r: Option<Span>)
        ensures
            r == self.spec_span(),
    {
        self.span
    }

    pub fn set_ts_span(&mut self, span: Span)
        ensures
            final(self).spec_span() == Some(span),
            final(self).spec_value() == old(self).spec_value(),
    {
        self.span = Some(span);
    }

    pub fn unset_ts_span(&mut self)
        ensures
            final(self).spec_span() is None,
            final(self).spec_value() == old(self).spec_value(),
    {
        self.span = None;
    }

    pub fn value(&self) -> (r: &String)
        ensures
            r@ == self.spec_value(),
    {
        &self.value
    }

    pub fn set_value(&mut self, value: String)
        ensures
            final(self).spec_value() == value@,
            final(self).spec_span() == old(self).spec_span(),
    {
        self.value = value;
    }

    /// The tag as written after a string: `@` and its value.
    pub fn to_text(&self) -> (r: String)
        ensures
            r@ == "@"@ + self.spec_value(),
    {
        let mut text = String::from_str("@");
        text.append(self.value.as_str());
        text
    }

    /// Whether `s` matches [`LANGUAGE_TAG_PATTERN`].
    pub fn is_valid(s: &str) -> (r: bool)
        ensures
            r == regex_matches(LANGUAGE_TAG_PATTERN@, s@),
    {
        pattern_matches(LANGUAGE_TAG_PATTERN, s)
    }
}

/// Corresponds to the grammar rule `informal_constraint`: a constraint written in a
/// natural language, or in a controlled one when a tag names it.
#[derive(Debug)]
pub struct ControlledLanguageString {
    span: Option<Span>,
    value: String,
    language: Option<ControlledLanguageTag>,
}

impl ControlledLanguageString {
    pub closed spec fn spec_span(&self) -> Option<Span> {
        self.span
    }

    pub closed spec fn spec_value(&self) -> Seq<char> {
        self.value@
    }

    pub closed spec fn spec_language(&self) -> Option<ControlledLanguageTag> {
        self.language
    }

    pub fn new(value: String, language: ControlledLanguageTag) -> (r: Self)
        ensures
            r.spec_value() == value@,
            r.spec_language() == Some(language),
            r.spec_span() is None,
    {
        ControlledLanguageString { span: None, value, language: Some(language) }
    }

    /// A string in no named language.
    pub fn from_value(value: String) -> (r: Self)
        ensures
            r.spec_value() == value@,
            r.spec_language() is None,
            r.spec_span() is None,
    {
        ControlledLanguageString { span: None, value, language: None }
    }

    pub fn with_ts_span(self, ts_span: Span) -> (r: Self)
        ensures
            r.spec_span() == Some(ts_span),
            r.spec_value() == self.spec_value(),
            r.spec_language() == self.spec_language(),
    {
        ControlledLanguageString { span: Some(ts_span), ..self }
    }

    pub fn has_ts_span(&self) -> (r: bool)
        ensures
            r == self.spec_span() is Some,
    {
        self.span.is_some()
    }

    pub fn ts_span(&self) -> (r: Option<Span>)
        ensures
            r == self.spec_span(),
    {
        self.span
    }

    pub fn set_ts_span(&mut self, span: Span)
        ensures
            final(self).spec_span() == Some(span),
            final(self).spec_value() == old(self).spec_value(),
            final(self).spec_language() == old(self).spec_language(),
    {
        self.span = Some(span);
    }

    pub fn unset_ts_span(&mut self)
        ensures
            final(self).spec_span() is None,
            final(self).spec_value() == old(self).spec_value(),
            final(self).spec_language() == old(self).spec_language(),
    {
        self.span = None;
    }

    pub fn value(&self) -> (r: &String)
        ensures
            r@ == self.spec_value(),
    {
        &self.value
    }

    pub fn set_value(&mut self, value: String)
        ensures
            final(self).spec_value() == value@,
            final(self).spec_span() == old(self).spec_span(),
            final(self).spec_language() == old(self).spec_language(),
    {
        self.value = value;
    }

    pub fn language(&self) -> (r: Option<&ControlledLanguageTag>)
        ensures
            r matches Some(t) ==> self.spec_language() == Some(*t),
            r is None <==> self.spec_language() is None,
    {
        self.language.as_ref()
    }

    pub fn set_language(&mut self, language: ControlledLanguageTag)
        ensures
            final(self).spec_language() == Some(language),
            final(self).spec_span() == old(self).spec_span(),
            final(self).spec_value() == old(self).spec_value(),
    {
        self.language = Some(language);
    }

    pub fn unset_language(&mut self)
        ensures
            final(self).spec_language() is None,
            final(self).spec_span() == old(self).spec_span(),
            final(self).spec_value() == old(self).spec_value(),
    {
        self.language = None;
    }
}

/// A formal constraint, kept as the sentence that was written.
#[derive(Debug)]
pub struct FormalConstraint {
    span: Option<Span>,
    sentence: String,
}

impl FormalConstraint {
    pub closed spec fn spec_sentence(&self) -> Seq<char> {
        self.sentence@
    }

    pub fn new(sentence: String) -> (r: Self)
        ensures
            r.spec_sentence() == sentence@,
    {
        FormalConstraint { span: None, sentence }
    }

    pub fn sentence(&self) -> (r: &String)
        ensures
            r@ == self.spec_sentence(),
    {
        &self.sentence
    }
}

#[derive(Debug)]
pub enum ConstraintBody {
    Informal(ControlledLanguageString),
    Formal(FormalConstraint),
}

/// Corresponds to the grammar rule `constraint`.
#[derive(Debug)]
pub struct Constraint {
    span: Option<Span>,
    name: Identifier,
    body: ConstraintBody,
}

/// A constraint is named like a member.
pub open spec fn constraint_diagnostics(c: Constraint, file_id: FileId) -> Seq<Diagnostic> {
    case_diagnostics(c.spec_name(), IdentifierCaseConvention::Member, file_id)
}

impl Constraint {
    pub closed spec fn spec_span(&self) -> Option<Span> {
        self.span
    }

    pub closed spec fn spec_name(&self) -> Identifier {
        self.name
    }

    pub closed spec fn spec_body(&self) -> ConstraintBody {
        self.body
    }

    pub fn new(name: Identifier, body: ConstraintBody) -> (r: Self)
        ensures
            r.spec_name() == name,
            r.spec_body() == body,
            r.spec_span() is None,
    {
        Constraint { span: None, name, body }
    }

    pub fn with_ts_span(self, ts_span: Span) -> (r: Self)
        ensures
            r.spec_span() == Some(ts_span),
            r.spec_name() == self.spec_name(),
            r.spec_body() == self.spec_body(),
    {
        Constraint { span: Some(ts_span), ..self }
    }

    pub fn ts_span(&self) -> (r: Option<Span>)
        ensures
            r == self.spec_span(),
    {
        self.span
    }

    pub fn name(&self) -> (r: &Identifier)
        ensures
            *r == self.spec_name(),
    {
        &self.name
    }

    pub fn body(&self) -> (r: &ConstraintBody)
        ensures
            *r == self.spec_body(),
    {
        &self.body
    }

    pub fn validate(&self, file_id: FileId, out: &mut Vec<Diagnostic>)
        ensures
            final(out)@ == old(out)@ + constraint_diagnostics(*self, file_id),
    {
        validate_case(&self.name, IdentifierCaseConvention::Member, file_id, out);
    }
}

} // verus!
