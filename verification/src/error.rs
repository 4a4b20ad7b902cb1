//! Errors the SDK reports, with the operation and project they concern.
use vstd::prelude::*;
use crate::text::{copy_str, push_str};

verus! {

/// Broad error category suitable for programmatic handling.
#[derive(Debug, Clone, Copy, PartialEq, Eq, Structural)]
#[non_exhaustive]
pub enum ErrorKind {
    InvalidInput,
    Project,
    Generation,
    Evaluation,
    Build,
    Run,
    Deploy,
    Io,
}

/// An SDK error: its category, the operation that failed, the project path
/// it failed for, and the underlying cause as text.
#[derive(Debug, Clone, PartialEq, Eq)]
pub struct Error {
    kind: ErrorKind,
    operation: String,
    path: String,
    source: String,
}

/// `<operation> failed for <path>: <source>`.
pub open spec fn error_text(operation: Seq<char>, path: Seq<char>, source: Seq<char>) -> Seq<char> {
    operation + " failed for "@ + path + ": "@ + source
}

impl Error {
    pub closed spec fn kind_spec(&self) -> ErrorKind {
        self.kind
    }

    pub closed spec fn operation_spec(&self) -> Seq<char> {
        self.operation@
    }

    pub closed spec fn path_spec(&self) -> Seq<char> {
        self.path@
    }

    pub closed spec fn source_spec(&self) -> Seq<char> {
        self.source@
    }

    pub fn new(kind: ErrorKind, operation: &str, path: &str, source: &str) -> (r: Self)
        ensures
            r.kind_spec() == kind,
            r.operation_spec() == operation@,
            r.path_spec() == path@,
            r.source_spec() == source@,
    {
        Error {
            kind,
            operation: copy_str(operation),
            path: copy_str(path),
            source: copy_str(source),
        }
    }

    pub fn kind(&self) -> (r: ErrorKind)
        ensures
            r == self.kind_spec(),
    {
        self.kind
    }

    pub fn operation(&self) -> (r: &str)
        ensures
            r@ == self.operation_spec(),
    {
        self.operation.as_str()
    }

    pub fn path(&self) -> (r: &str)
        ensures
            r@ == self.path_spec(),
    {
        self.path.as_str()
    }

    /// The error as one line of text.
    pub fn message(&self) -> (r: String)
        ensures
            r@ == error_text(self.operation_spec(), self.path_spec(), self.source_spec()),
    {
        let mut out = copy_str(&self.operation);
        push_str(&mut out, " failed for ");
        push_str(&mut out, &self.path);
        push_str(&mut out, ": ");
        push_str(&mut out, &self.source);
        out
    }
}

} // verus!
