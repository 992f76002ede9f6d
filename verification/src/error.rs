use vstd::prelude::*;
use vstd::string::*;

verus! {

/// The kind of a failure, so that callers can branch without reading the message.
#[derive(Clone, Copy, Debug, PartialEq, Eq, Structural)]
pub enum ErrorKind {
    /// A file or stream could not be opened, read or written.
    Io,
    /// The regular-expression engine rejected the pattern.
    PatternCompile,
    /// Neither a literal value nor a file was given for a required argument.
    MissingValue,
    /// A byte-size string does not follow the size grammar.
    InvalidSize,
}

/// A failure of the utility: its kind, and the human-readable diagnostic.
#[derive(Debug, Clone, PartialEq, Eq)]
pub struct CliError {
    pub kind: ErrorKind,
    pub msg: String,
}

/// The mathematical content of a [`CliError`].
pub struct CliErrorView {
    pub kind: ErrorKind,
    pub msg: Seq<char>,
}

impl View for CliError {
    type V = CliErrorView;

    open spec fn view(&self) -> CliErrorView {
        CliErrorView { kind: self.kind, msg: self.msg@ }
    }
}

/// The diagnostic for a required argument that was not supplied.
pub open spec fn missing_value_message(name: Seq<char>) -> Seq<char> {
    "No "@ + name + " was supplied"@
}

/// The diagnostic for a size string that is not accepted.
pub open spec fn invalid_size_message(size_str: Seq<char>) -> Seq<char> {
    "Warning: Invalid size string ("@ + size_str + "), defaulting to 1MiB"@
}

impl CliError {
    /// An error of the given kind that carries `msg` unchanged.
    pub fn new(kind: ErrorKind, msg: String) -> (e: CliError)
        ensures
            e@ == (CliErrorView { kind, msg: msg@ }),
    {
        CliError { kind, msg }
    }

    /// The error for a required argument `name` with neither a literal nor a file.
    pub fn missing_value(name: &str) -> (e: CliError)
        ensures
            e@ == (CliErrorView {
                kind: ErrorKind::MissingValue,
                msg: missing_value_message(name@),
            }),
    {
        let mut msg = String::from_str("No ");
        msg.append(name);
        msg.append(" was supplied");
        CliError { kind: ErrorKind::MissingValue, msg }
    }

    /// The error for a size string that is not accepted.
    pub fn invalid_size(size_str: &str) -> (e: CliError)
        ensures
            e@ == (CliErrorView {
                kind: ErrorKind::InvalidSize,
                msg: invalid_size_message(size_str@),
            }),
    {
        let mut msg = String::from_str("Warning: Invalid size string (");
        msg.append(size_str);
        msg.append("), defaulting to 1MiB");
        CliError { kind: ErrorKind::InvalidSize, msg }
    }

    /// The kind of this error.
    pub fn kind(&self) -> (k: ErrorKind)
        ensures
            k == self@.kind,
    {
        self.kind
    }

    /// The diagnostic text of this error.
    pub fn message(&self) -> (m: &str)
        ensures
            m@ == self@.msg,
    {
        self.msg.as_str()
    }

    /// The diagnostic text of this error, as an owned string.
    pub fn to_string(&self) -> (m: String)
        ensures
            m@ == self@.msg,
    {
        self.msg.clone()
    }
}

} // verus!
