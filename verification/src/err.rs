use vstd::prelude::*;

verus! {

/// The four failure classes of the compiler: malformed declaration source,
/// a declared route with no counterpart in the document, an unsupported or
/// incomplete schema construct, and a failure of the external document input.
#[derive(Clone, Copy, PartialEq, Eq, Structural, Debug)]
pub enum ErrorKind {
    Syntax,
    Resolution,
    Schema,
    Document,
}

/// A compilation failure: its class, the source position of the offending
/// construct when one applies, and a human-readable message.
#[derive(Debug)]
pub struct Error {
    pub kind: ErrorKind,
    pub pos: Option<usize>,
    pub msg: String,
}

/// Mathematical model of an [`Error`].
pub struct ErrorV {
    pub kind: ErrorKind,
    pub pos: Option<usize>,
    pub msg: Seq<char>,
}

impl DeepView for Error {
    type V = ErrorV;

    open spec fn deep_view(&self) -> ErrorV {
        ErrorV { kind: self.kind, pos: self.pos, msg: self.msg@ }
    }
}

/// Model-level constructor for an error at a known source position.
pub open spec fn err_at(kind: ErrorKind, pos: usize, msg: Seq<char>) -> ErrorV {
    ErrorV { kind, pos: Some(pos), msg }
}

/// Model-level constructor for an error with no source position.
pub open spec fn err_nowhere(kind: ErrorKind, msg: Seq<char>) -> ErrorV {
    ErrorV { kind, pos: None, msg }
}

impl Error {
    /// Build an error carrying a source position.
    pub fn at(kind: ErrorKind, pos: usize, msg: &str) -> (r: Error)
        ensures
            r.deep_view() == err_at(kind, pos, msg@),
    {
        Error { kind, pos: Some(pos), msg: msg.to_owned() }
    }

    /// Build an error with no source position.
    pub fn nowhere(kind: ErrorKind, msg: &str) -> (r: Error)
        ensures
            r.deep_view() == err_nowhere(kind, msg@),
    {
        Error { kind, pos: None, msg: msg.to_owned() }
    }

    /// Build an error whose message is an explanation followed by a subject,
    /// such as the path or name that failed to resolve.
    pub fn about(kind: ErrorKind, pos: Option<usize>, msg: &str, subject: &str) -> (r: Error)
        ensures
            r.deep_view() == (ErrorV { kind, pos, msg: msg@ + subject@ }),
    {
        let mut m = msg.to_owned();
        m.append(subject);
        Error { kind, pos, msg: m }
    }
}

} // verus!
