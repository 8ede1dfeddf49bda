//! Diagnostics: structured reports of semantic problems, each attributed to a file and a
//! span of the module that a user wrote.
use crate::identifiers::{
    follows_convention, Identifier, IdentifierCaseConvention, IdentifierReference,
    QualifiedIdentifier, Span,
};
use vstd::prelude::*;

verus! {

/// The handle of a loaded source file; `0` stands for a module with no file.
pub type FileId = usize;

#[derive(Clone, Copy, Debug, PartialEq, Eq, Structural)]
pub enum Severity {
    Warning,
    Error,
}

/// The kind of a diagnostic, one for each message template.
#[derive(Clone, Copy, Debug, PartialEq, Eq, Structural)]
pub enum DiagnosticCode {
    IdentifierNotPreferredCase,
    ModuleVersionInfoEmpty,
    ModuleIsIncomplete,
    ImportedModuleNotFound,
    ModuleVersionMismatch,
    ModuleVersionNotFound,
    DefinitionNotFound,
    TypeDefinitionNotFound,
}

/// A semantic problem found by validation. Every variant names the file and span of the
/// module being validated, never those of a module that it refers to.
#[derive(Debug)]
#[allow(inconsistent_fields)]
pub enum Diagnostic {
    IdentifierNotPreferredCase {
        file_id: FileId,
        span: Option<Span>,
        name: Identifier,
        convention: IdentifierCaseConvention,
    },
    ModuleVersionInfoEmpty { file_id: FileId, span: Option<Span> },
    ModuleIsIncomplete { file_id: FileId, span: Option<Span>, name: Identifier },
    ImportedModuleNotFound { file_id: FileId, span: Option<Span>, name: Identifier },
    ModuleVersionMismatch {
        file_id: FileId,
        span: Option<Span>,
        expected: String,
        actual: String,
    },
    ModuleVersionNotFound {
        file_id: FileId,
        span: Option<Span>,
        expected: String,
        name: Identifier,
    },
    DefinitionNotFound { file_id: FileId, span: Option<Span>, name: QualifiedIdentifier },
    TypeDefinitionNotFound { file_id: FileId, span: Option<Span>, name: IdentifierReference },
}

impl Diagnostic {
    pub open spec fn spec_code(&self) -> DiagnosticCode {
        match self {
            Diagnostic::IdentifierNotPreferredCase { .. } => DiagnosticCode::IdentifierNotPreferredCase,
            Diagnostic::ModuleVersionInfoEmpty { .. } => DiagnosticCode::ModuleVersionInfoEmpty,
            Diagnostic::ModuleIsIncomplete { .. } => DiagnosticCode::ModuleIsIncomplete,
            Diagnostic::ImportedModuleNotFound { .. } => DiagnosticCode::ImportedModuleNotFound,
            Diagnostic::ModuleVersionMismatch { .. } => DiagnosticCode::ModuleVersionMismatch,
            Diagnostic::ModuleVersionNotFound { .. } => DiagnosticCode::ModuleVersionNotFound,
            Diagnostic::DefinitionNotFound { .. } => DiagnosticCode::DefinitionNotFound,
            Diagnostic::TypeDefinitionNotFound { .. } => DiagnosticCode::TypeDefinitionNotFound,
        }
    }

    pub open spec fn spec_file_id(&self) -> FileId {
        match self {
            Diagnostic::IdentifierNotPreferredCase { file_id, .. } => *file_id,
            Diagnostic::ModuleVersionInfoEmpty { file_id, .. } => *file_id,
            Diagnostic::ModuleIsIncomplete { file_id, .. } => *file_id,
            Diagnostic::ImportedModuleNotFound { file_id, .. } => *file_id,
            Diagnostic::ModuleVersionMismatch { file_id, .. } => *file_id,
            Diagnostic::ModuleVersionNotFound { file_id, .. } => *file_id,
            Diagnostic::DefinitionNotFound { file_id, .. } => *file_id,
            Diagnostic::TypeDefinitionNotFound { file_id, .. } => *file_id,
        }
    }

    pub open spec fn spec_span(&self) -> Option<Span> {
        match self {
            Diagnostic::IdentifierNotPreferredCase { span, .. } => *span,
            Diagnostic::ModuleVersionInfoEmpty { span, .. } => *span,
            Diagnostic::ModuleIsIncomplete { span, .. } => *span,
            Diagnostic::ImportedModuleNotFound { span, .. } => *span,
            Diagnostic::ModuleVersionMismatch { span, .. } => *span,
            Diagnostic::ModuleVersionNotFound { span, .. } => *span,
            Diagnostic::DefinitionNotFound { span, .. } => *span,
            Diagnostic::TypeDefinitionNotFound { span, .. } => *span,
        }
    }

    /// Case conventions are advice; every other problem is an error.
    pub open spec fn spec_severity(&self) -> Severity {
        match self {
            Diagnostic::IdentifierNotPreferredCase { .. } => Severity::Warning,
            Diagnostic::ModuleVersionInfoEmpty { .. } => Severity::Warning,
            _ => Severity::Error,
        }
    }

    /// The message, with the template's arguments filled in.
    pub open spec fn spec_message(&self) -> Seq<char> {
        match self {
            Diagnostic::IdentifierNotPreferredCase { name, convention, .. } => "identifier `"@
                + name.spec_value() + "` does not follow the "@ + convention_text(*convention)
                + " naming convention"@,
            Diagnostic::ModuleVersionInfoEmpty { .. } => "module version info is empty"@,
            Diagnostic::ModuleIsIncomplete { name, .. } => "module `"@ + name.spec_value()
                + "` is incomplete"@,
            Diagnostic::ImportedModuleNotFound { name, .. } => "imported module `"@
                + name.spec_value() + "` was not found"@,
            Diagnostic::ModuleVersionMismatch { expected, actual, .. } => "expected module version `"@
                + expected@ + "` but found `"@ + actual@ + "`"@,
            Diagnostic::ModuleVersionNotFound { expected, name, .. } => "expected module version `"@
                + expected@ + "` but module `"@ + name.spec_value() + "` has no version URI"@,
            Diagnostic::DefinitionNotFound { name, .. } => "definition `"@ + name.spec_text()
                + "` was not found"@,
            Diagnostic::TypeDefinitionNotFound { name, .. } => "type `"@ + name.spec_text()
                + "` was not found"@,
        }
    }

    pub fn message(&self) -> (r: String)
        ensures
            r@ == self.spec_message(),
    {
        match self {
            Diagnostic::IdentifierNotPreferredCase { name, convention, .. } => {
                let mut text = String::from_str("identifier `");
                text.append(name.value().as_str());
                text.append("` does not follow the ");
                text.append(convention_name(*convention));
                text.append(" naming convention");
                text
            },
            Diagnostic::ModuleVersionInfoEmpty { .. } => String::from_str(
                "module version info is empty",
            ),
            Diagnostic::ModuleIsIncomplete { name, .. } => {
                let mut text = String::from_str("module `");
                text.append(name.value().as_str());
                text.append("` is incomplete");
                text
            },
            Diagnostic::ImportedModuleNotFound { name, .. } => {
                let mut text = String::from_str("imported module `");
                text.append(name.value().as_str());
                text.append("` was not found");
                text
            },
            Diagnostic::ModuleVersionMismatch { expected, actual, .. } => {
                let mut text = String::from_str("expected module version `");
                text.append(expected.as_str());
                text.append("` but found `");
                text.append(actual.as_str());
                text.append("`");
                text
            },
            Diagnostic::ModuleVersionNotFound { expected, name, .. } => {
                let mut text = String::from_str("expected module version `");
                text.append(expected.as_str());
                text.append("` but module `");
                text.append(name.value().as_str());
                text.append("` has no version URI");
                text
            },
            Diagnostic::DefinitionNotFound { name, .. } => {
                let mut text = String::from_str("definition `");
                let qualified = name.to_text();
                text.append(qualified.as_str());
                text.append("` was not found");
                text
            },
            Diagnostic::TypeDefinitionNotFound { name, .. } => {
                let mut text = String::from_str("type `");
                let reference = name.to_text();
                text.append(reference.as_str());
                text.append("` was not found");
                text
            },
        }
    }

    pub fn code(&self) -> (r: DiagnosticCode)
        ensures
            r == self.spec_code(),
    {
        match self {
            Diagnostic::IdentifierNotPreferredCase { .. } => DiagnosticCode::IdentifierNotPreferredCase,
            Diagnostic::ModuleVersionInfoEmpty { .. } => DiagnosticCode::ModuleVersionInfoEmpty,
            Diagnostic::ModuleIsIncomplete { .. } => DiagnosticCode::ModuleIsIncomplete,
            Diagnostic::ImportedModuleNotFound { .. } => DiagnosticCode::ImportedModuleNotFound,
            Diagnostic::ModuleVersionMismatch { .. } => DiagnosticCode::ModuleVersionMismatch,
            Diagnostic::ModuleVersionNotFound { .. } => DiagnosticCode::ModuleVersionNotFound,
            Diagnostic::DefinitionNotFound { .. } => DiagnosticCode::DefinitionNotFound,
            Diagnostic::TypeDefinitionNotFound { .. } => DiagnosticCode::TypeDefinitionNotFound,
        }
    }

    pub fn file_id(&self) -> (r: FileId)
        ensures
            r == self.spec_file_id(),
    {
        match self {
            Diagnostic::IdentifierNotPreferredCase { file_id, .. } => *file_id,
            Diagnostic::ModuleVersionInfoEmpty { file_id, .. } => *file_id,
            Diagnostic::ModuleIsIncomplete { file_id, .. } => *file_id,
            Diagnostic::ImportedModuleNotFound { file_id, .. } => *file_id,
            Diagnostic::ModuleVersionMismatch { file_id, .. } => *file_id,
            Diagnostic::ModuleVersionNotFound { file_id, .. } => *file_id,
            Diagnostic::DefinitionNotFound { file_id, .. } => *file_id,
            Diagnostic::TypeDefinitionNotFound { file_id, .. } => *file_id,
        }
    }

    pub fn span(&self) -> (r: Option<Span>)
        ensures
            r == self.spec_span(),
    {
        match self {
            Diagnostic::IdentifierNotPreferredCase { span, .. } => *span,
            Diagnostic::ModuleVersionInfoEmpty { span, .. } => *span,
            Diagnostic::ModuleIsIncomplete { span, .. } => *span,
            Diagnostic::ImportedModuleNotFound { span, .. } => *span,
            Diagnostic::ModuleVersionMismatch { span, .. } => *span,
            Diagnostic::ModuleVersionNotFound { span, .. } => *span,
            Diagnostic::DefinitionNotFound { span, .. } => *span,
            Diagnostic::TypeDefinitionNotFound { span, .. } => *span,
        }
    }

    pub fn severity(&self) -> (r: Severity)
        ensures
            r == self.spec_severity(),
    {
        match self {
            Diagnostic::IdentifierNotPreferredCase { .. } => Severity::Warning,
            Diagnostic::ModuleVersionInfoEmpty { .. } => Severity::Warning,
            _ => Severity::Error,
        }
    }
}

/// The name of a naming convention, as messages write it.
pub open spec fn convention_text(convention: IdentifierCaseConvention) -> Seq<char> {
    match convention {
        IdentifierCaseConvention::Module => "module"@,
        IdentifierCaseConvention::Member => "member"@,
        IdentifierCaseConvention::TypeDefinition => "type definition"@,
        IdentifierCaseConvention::ValueVariant => "value variant"@,
        IdentifierCaseConvention::RdfDefinition => "RDF definition"@,
    }
}

pub fn convention_name(convention: IdentifierCaseConvention) -> (r: &'static str)
    ensures
        r@ == convention_text(convention),
{
    match convention {
        IdentifierCaseConvention::Module => "module",
        IdentifierCaseConvention::Member => "member",
        IdentifierCaseConvention::TypeDefinition => "type definition",
        IdentifierCaseConvention::ValueVariant => "value variant",
        IdentifierCaseConvention::RdfDefinition => "RDF definition",
    }
}

/// The warning owed when `id` breaks the convention that its position asks for.
pub open spec fn case_diagnostics(
    id: Identifier,
    convention: IdentifierCaseConvention,
    file_id: FileId,
) -> Seq<Diagnostic> {
    if follows_convention(id.spec_value(), convention) {
        Seq::empty()
    } else {
        seq![
            Diagnostic::IdentifierNotPreferredCase {
                file_id,
                span: id.spec_span(),
                name: id,
                convention,
            },
        ]
    }
}

pub fn validate_case(
    id: &Identifier,
    convention: IdentifierCaseConvention,
    file_id: FileId,
    out: &mut Vec<Diagnostic>,
)
    ensures
        final(out)@ == old(out)@ + case_diagnostics(*id, convention, file_id),
{
    if !id.follows_convention(convention) {
        out.push(
            Diagnostic::IdentifierNotPreferredCase {
                file_id,
                span: id.ts_span(),
                name: id.duplicate(),
                convention,
            },
        );
        assert(out@ =~= old(out)@ + case_diagnostics(*id, convention, file_id));
    } else {
        assert(out@ =~= old(out)@ + case_diagnostics(*id, convention, file_id));
    }
}

} // verus!
