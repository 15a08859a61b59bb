//! The errors that cross the boundary and their stable numeric codes.

use vstd::prelude::*;

verus! {

/// The causes of failure that a caller can tell apart.
#[derive(Debug, Clone, Copy, PartialEq, Eq, Structural)]
pub enum ErrorKind {
    /// An unexpected internal failure, among them every contained fault.
    Internal,
    /// The requested architecture is not part of the object.
    NoSuchArch,
    /// A section that the operation needs is missing.
    NoSuchSection,
    /// An attribute that the operation needs is missing.
    NoSuchAttribute,
    /// The object file is malformed.
    MachObject,
    /// Reading the input failed.
    Io,
    /// The debug information is malformed.
    Dwarf,
}

/// A failure of a domain operation: its kind and its human-readable rendering.
#[derive(Debug, PartialEq, Eq)]
pub struct Error {
    pub kind: ErrorKind,
    pub message: String,
}

/// What contracts say of an [`Error`]: its kind and the characters of its message.
pub struct ErrorView {
    pub kind: ErrorKind,
    pub message: Seq<char>,
}

impl View for Error {
    type V = ErrorView;

    open spec fn view(&self) -> ErrorView {
        ErrorView { kind: self.kind, message: self.message@ }
    }
}

/// The stable code of each kind. Codes are part of the ABI: a kind keeps its
/// number for good, and a new kind takes a new number.
pub open spec fn classify(kind: ErrorKind) -> int {
    match kind {
        ErrorKind::Internal => 1,
        ErrorKind::NoSuchArch => 2,
        ErrorKind::NoSuchSection => 3,
        ErrorKind::NoSuchAttribute => 4,
        ErrorKind::MachObject => 5,
        ErrorKind::Io => 6,
        ErrorKind::Dwarf => 7,
    }
}

/// Whether `code` is one of the numbers of the fixed enumeration.
pub open spec fn is_error_code(code: int) -> bool {
    1 <= code <= 7
}

/// The message of the error that stands for a contained fault.
pub open spec fn internal_message() -> Seq<char> {
    "internal error"@
}

/// The error that stands for a contained fault, as contracts see it.
pub open spec fn internal_error() -> ErrorView {
    ErrorView { kind: ErrorKind::Internal, message: internal_message() }
}

impl Error {
    /// An error of the given kind with the given rendering.
    pub fn new(kind: ErrorKind, message: String) -> (err: Error)
        ensures
            err.kind == kind,
            err.message == message,
    {
        Error { kind, message }
    }

    /// The error reported in place of a fault. Whatever the fault carried is
    /// dropped: callers dispatch on the code, and the message is a fixed marker.
    pub fn internal() -> (err: Error)
        ensures
            err@ == internal_error(),
    {
        Error { kind: ErrorKind::Internal, message: String::from_str("internal error") }
    }
}

/// The stable code of an error. It depends on the kind alone and is defined
/// for every error.
pub fn get_error_code(err: &Error) -> (code: i32)
    ensures
        code == classify(err.kind),
{
    match err.kind {
        ErrorKind::Internal => 1,
        ErrorKind::NoSuchArch => 2,
        ErrorKind::NoSuchSection => 3,
        ErrorKind::NoSuchAttribute => 4,
        ErrorKind::MachObject => 5,
        ErrorKind::Io => 6,
        ErrorKind::Dwarf => 7,
    }
}

/// Two errors have the same code exactly when they are of the same kind,
/// whatever their messages say.
pub proof fn classify_is_injective(a: Error, b: Error)
    ensures
        classify(a.kind) == classify(b.kind) <==> a.kind == b.kind,
{
}

/// The code of every kind is a number of the fixed enumeration.
pub proof fn classify_stays_in_enumeration(kind: ErrorKind)
    ensures
        is_error_code(classify(kind)),
{
}

/// Every number of the fixed enumeration is the code of a kind.
pub proof fn classify_covers_enumeration(code: int)
    requires
        is_error_code(code),
    ensures
        exists|kind: ErrorKind| classify(kind) == code,
{
    let kind = if code == 1 {
        ErrorKind::Internal
    } else if code == 2 {
        ErrorKind::NoSuchArch
    } else if code == 3 {
        ErrorKind::NoSuchSection
    } else if code == 4 {
        ErrorKind::NoSuchAttribute
    } else if code == 5 {
        ErrorKind::MachObject
    } else if code == 6 {
        ErrorKind::Io
    } else {
        ErrorKind::Dwarf
    };
    assert(classify(kind) == code);
}

} // verus!
