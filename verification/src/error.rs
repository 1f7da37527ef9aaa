//! The error taxonomy of the build pipeline and the invocation runtime.

use vstd::prelude::*;

verus! {

/// Which structural precondition an exportable-marked function violated.
#[derive(Clone, Copy, PartialEq, Eq, Structural, Debug)]
pub enum ExportViolation {
    /// The function is not declared with public visibility.
    NotPublic,
    /// The function already carries an explicit calling-convention
    /// annotation, which would conflict with the one the pipeline imposes.
    ExplicitAbi,
}

/// A failure of one build or one invocation.
#[derive(Clone, Debug, PartialEq, Eq)]
pub enum Error {
    /// An exportable-marked function violates a structural precondition.
    InvalidExportKind { name: String, violation: ExportViolation },
    /// The external compiler exited unsuccessfully. `detail` carries its
    /// diagnostic text only when verbose diagnostics were requested.
    CompilationFailed { detail: Option<String> },
    /// A requested function name could not be resolved in a loaded artifact.
    ExportNotFound { name: String },
    /// The sandboxed function itself signalled failure. `detail` carries the
    /// captured payload only when verbose diagnostics were requested.
    SandboxedExecutionFailed { detail: Option<String> },
    /// A textual artifact encoding was not decodable.
    InvalidArtifactEncoding,
    /// An invocation request did not have the expected shape.
    MalformedInvocation,
}

/// The mathematical image of an [`Error`].
pub enum ErrorV {
    InvalidExportKind { name: Seq<char>, violation: ExportViolation },
    CompilationFailed { detail: Option<Seq<char>> },
    ExportNotFound { name: Seq<char> },
    SandboxedExecutionFailed { detail: Option<Seq<char>> },
    InvalidArtifactEncoding,
    MalformedInvocation,
}

impl View for Error {
    type V = ErrorV;

    open spec fn view(&self) -> ErrorV {
        match self {
            Error::InvalidExportKind { name, violation } => ErrorV::InvalidExportKind {
                name: name@,
                violation: *violation,
            },
            Error::CompilationFailed { detail } => ErrorV::CompilationFailed {
                detail: match detail {
                    Some(d) => Some(d@),
                    None => None,
                },
            },
            Error::ExportNotFound { name } => ErrorV::ExportNotFound { name: name@ },
            Error::SandboxedExecutionFailed { detail } => ErrorV::SandboxedExecutionFailed {
                detail: match detail {
                    Some(d) => Some(d@),
                    None => None,
                },
            },
            Error::InvalidArtifactEncoding => ErrorV::InvalidArtifactEncoding,
            Error::MalformedInvocation => ErrorV::MalformedInvocation,
        }
    }
}

} // verus!
