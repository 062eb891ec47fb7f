//! Errors of the front end: their kinds, and the platform categories that
//! file failures map from.
use vstd::prelude::*;

verus! {

/// Generic error enum.
#[derive(Debug, Clone, Copy, PartialEq, Eq, Structural)]
pub enum SymbolicErrorKind {
    /// Can't parse command line arguments
    /// because there're too many file arguments.
    ParseargTooManyFiles,
    /// Can't parse command line arguments
    /// because there're invalid options.
    ParseargInvalidOption,
    /// File not found.
    FileNotFound,
    /// Permission denied.
    PermissionDenied,
    /// Operation interrupted.
    OperationInterrupted,
    /// Operation is unsupported.
    OperationUnsupported,
    /// Unexpected EOF.
    UnexceptedEOF,
    /// Unknown error.
    Unknown,
}

/// The error struct: a kind, and what the platform said of it, if anything.
#[derive(Debug)]
pub struct SymbolicError {
    /// What went wrong.
    pub kind: SymbolicErrorKind,
    /// Free text that came with the failure, if any.
    pub description: Option<String>,
}

impl SymbolicError {
    /// What went wrong.
    pub fn kind(&self) -> (r: SymbolicErrorKind)
        ensures
            r == self.kind,
    {
        self.kind
    }

    /// The error of a failed file operation: the kind that `category` maps to,
    /// with the platform's own words.
    pub fn from_io(category: IoCategory, description: String) -> (r: SymbolicError)
        ensures
            r.kind == io_kind(category),
            r.description == Some(description),
    {
        SymbolicError { kind: SymbolicErrorKind::from(category), description: Some(description) }
    }
}

impl From<SymbolicErrorKind> for SymbolicError {
    fn from(kind: SymbolicErrorKind) -> (r: Self) {
        SymbolicError { kind: kind, description: None }
    }
}

impl vstd::std_specs::convert::FromSpecImpl<SymbolicErrorKind> for SymbolicError {
    open spec fn obeys_from_spec() -> bool {
        true
    }

    open spec fn from_spec(kind: SymbolicErrorKind) -> SymbolicError {
        SymbolicError { kind: kind, description: None }
    }
}

/// The platform's category of a failed file operation.
#[derive(Debug, Clone, Copy, PartialEq, Eq, Structural)]
pub enum IoCategory {
    /// The path does not exist.
    NotFound,
    /// The process may not access the path.
    PermissionDenied,
    /// The operation was interrupted.
    Interrupted,
    /// The platform does not support the operation.
    Unsupported,
    /// The stream ended before the operation was done.
    UnexpectedEof,
    /// Any category not listed above.
    Other,
}

/// The error kind of each platform category.
pub open spec fn io_kind(category: IoCategory) -> SymbolicErrorKind {
    match category {
        IoCategory::NotFound => SymbolicErrorKind::FileNotFound,
        IoCategory::PermissionDenied => SymbolicErrorKind::PermissionDenied,
        IoCategory::Interrupted => SymbolicErrorKind::OperationInterrupted,
        IoCategory::Unsupported => SymbolicErrorKind::OperationUnsupported,
        IoCategory::UnexpectedEof => SymbolicErrorKind::UnexceptedEOF,
        IoCategory::Other => SymbolicErrorKind::Unknown,
    }
}

impl From<IoCategory> for SymbolicErrorKind {
    fn from(value: IoCategory) -> (r: Self) {
        match value {
            IoCategory::NotFound => SymbolicErrorKind::FileNotFound,
            IoCategory::PermissionDenied => SymbolicErrorKind::PermissionDenied,
            IoCategory::Interrupted => SymbolicErrorKind::OperationInterrupted,
            IoCategory::Unsupported => SymbolicErrorKind::OperationUnsupported,
            IoCategory::UnexpectedEof => SymbolicErrorKind::UnexceptedEOF,
            IoCategory::Other => SymbolicErrorKind::Unknown,
        }
    }
}

impl vstd::std_specs::convert::FromSpecImpl<IoCategory> for SymbolicErrorKind {
    open spec fn obeys_from_spec() -> bool {
        true
    }

    open spec fn from_spec(value: IoCategory) -> SymbolicErrorKind {
        io_kind(value)
    }
}

} // verus!
