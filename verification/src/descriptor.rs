//! The error descriptor: the record in which a failed call tells its caller
//! what went wrong.

use vstd::prelude::*;
use crate::error::{classify, get_error_code, is_error_code, Error, ErrorView};
use crate::message::{c_string, nul_terminated};

verus! {

/// The descriptor that a caller hands to an exported call. The callee writes
/// it when the call fails and never reads it. `message` and `code` mean
/// something only while `failed` is not zero; the message then belongs to the
/// caller, who releases it.
#[derive(Debug, PartialEq, Eq)]
pub struct CError {
    /// The nul-terminated message, or `None` for the null pointer.
    pub message: Option<Vec<u8>>,
    /// 0 until a call fails, then 1.
    pub failed: i32,
    /// The stable code of the failure.
    pub code: i32,
}

/// What contracts say of a [`CError`].
pub struct Report {
    pub message: Option<Seq<u8>>,
    pub failed: int,
    pub code: int,
}

impl View for CError {
    type V = Report;

    open spec fn view(&self) -> Report {
        Report {
            message: match self.message {
                Some(bytes) => Some(bytes@),
                None => None,
            },
            failed: self.failed as int,
            code: self.code as int,
        }
    }
}

impl Report {
    /// What holds of a descriptor that only this library has written to since
    /// it was clear: it records no failure, or it records one together with a
    /// code of the fixed enumeration and a message that ends in a nul byte.
    pub open spec fn well_formed(self) -> bool {
        self.failed != 0 ==> {
            &&& self.failed == 1
            &&& is_error_code(self.code)
            &&& self.message matches Some(bytes) && bytes.len() >= 1 && bytes.last() == 0
        }
    }
}

/// The descriptor of a call that failed with `err`.
pub open spec fn report_of(err: ErrorView) -> Report {
    Report { message: Some(nul_terminated(err.message)), failed: 1, code: classify(err.kind) }
}

impl Default for CError {
    /// The descriptor of a call that has not failed.
    fn default() -> (blank: CError)
        ensures
            blank@ == (Report { message: None, failed: 0, code: 0 }),
    {
        CError { message: None, failed: 0, code: 0 }
    }
}

/// Reports `err` to the caller. With a descriptor, all three fields are
/// written; what the descriptor held before is not read and is lost, so a
/// caller who reuses a descriptor releases its message first. Without a
/// descriptor the caller has opted out of diagnostics and nothing happens.
pub fn notify_err(err: Error, err_out: Option<&mut CError>)
    ensures
        err_out matches Some(d) ==> final(d)@ == report_of(err@),
{
    match err_out {
        Some(d) => {
            d.failed = 1;
            d.message = Some(c_string(err.message.as_str()));
            d.code = get_error_code(&err);
        },
        None => {},
    }
}

} // verus!
