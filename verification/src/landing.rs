//! The landing pad: what an exported call hands back to its caller once the
//! guarded work has ended, however it ended.

use vstd::prelude::*;
use vstd::utf8::{is_ascii_chars, is_ascii_chars_encode_utf8};
use crate::descriptor::{notify_err, report_of, CError, Report};
use crate::error::{internal_error, internal_message, is_error_code, Error, ErrorView};
use crate::message::{message_shape, nul_terminated};

verus! {

/// A type that can cross the boundary by value and has an all-zero value, the
/// sentinel that a failed call returns: 0 for a number, the null address for a
/// handle or a buffer.
pub trait Zeroed: Sized {
    /// The sentinel of this type.
    spec fn zero() -> Self;

    /// Makes the sentinel.
    fn zeroed() -> (z: Self)
        ensures
            z == Self::zero(),
    ;
}

impl Zeroed for i32 {
    open spec fn zero() -> i32 {
        0
    }

    fn zeroed() -> i32 {
        0
    }
}

impl Zeroed for u32 {
    open spec fn zero() -> u32 {
        0
    }

    fn zeroed() -> u32 {
        0
    }
}

impl Zeroed for i64 {
    open spec fn zero() -> i64 {
        0
    }

    fn zeroed() -> i64 {
        0
    }
}

impl Zeroed for u64 {
    open spec fn zero() -> u64 {
        0
    }

    fn zeroed() -> u64 {
        0
    }
}

impl Zeroed for isize {
    open spec fn zero() -> isize {
        0
    }

    fn zeroed() -> isize {
        0
    }
}

impl Zeroed for usize {
    open spec fn zero() -> usize {
        0
    }

    fn zeroed() -> usize {
        0
    }
}

/// How the guarded work of one exported call ended.
#[derive(Debug)]
pub enum Outcome<T> {
    /// The work returned, with its value or with its error.
    Completed(Result<T, Error>),
    /// The work was cut short by a fault, which the guard contained.
    Faulted,
}

/// Whether the work returned a value.
pub open spec fn succeeded<T>(outcome: Outcome<T>) -> bool {
    outcome matches Outcome::Completed(Ok(_))
}

/// The error that a call reports to its caller: the work's own error, the
/// internal error in place of a fault, and none after success.
pub open spec fn reported_error<T>(outcome: Outcome<T>) -> Option<ErrorView> {
    match outcome {
        Outcome::Completed(Ok(_)) => None,
        Outcome::Completed(Err(err)) => Some(err@),
        Outcome::Faulted => Some(internal_error()),
    }
}

/// The value that a call returns to its caller: the work's value after
/// success, else the sentinel.
pub open spec fn returned_value<T: Zeroed>(outcome: Outcome<T>) -> T {
    match outcome {
        Outcome::Completed(Ok(value)) => value,
        _ => T::zero(),
    }
}

/// The caller's descriptor after a call, given what it held before: written
/// anew when the call reports an error, else left as it was.
pub open spec fn descriptor_after<T>(outcome: Outcome<T>, before: Report) -> Report {
    match reported_error(outcome) {
        Some(err) => report_of(err),
        None => before,
    }
}

/// Ends an exported call. After success the work's value is returned and the
/// descriptor is left alone. After a failure or a fault the sentinel is
/// returned and the error is reported, if the caller gave a descriptor.
pub fn landingpad<T: Zeroed>(outcome: Outcome<T>, err_out: Option<&mut CError>) -> (rv: T)
    ensures
        rv == returned_value(outcome),
        err_out matches Some(d) ==> final(d)@ == descriptor_after(outcome, (*d)@),
{
    match outcome {
        Outcome::Completed(Ok(value)) => value,
        Outcome::Completed(Err(err)) => {
            notify_err(err, err_out);
            T::zeroed()
        },
        Outcome::Faulted => {
            notify_err(Error::internal(), err_out);
            T::zeroed()
        },
    }
}

/// A call that succeeds hands the work's value to its caller as it is and
/// leaves the descriptor as it was.
pub proof fn success_passes_through<T: Zeroed>(value: T, before: Report)
    ensures
        returned_value(Outcome::Completed(Ok::<T, Error>(value))) == value,
        descriptor_after(Outcome::Completed(Ok::<T, Error>(value)), before) == before,
{
}

/// A contained fault never shows as anything but the internal error: the
/// caller gets the sentinel, code 1 and the fixed marker as message, fifteen
/// bytes with the terminator, whatever the descriptor held before.
pub proof fn fault_reports_internal<T: Zeroed>(before: Report)
    ensures
        returned_value(Outcome::<T>::Faulted) == T::zero(),
        descriptor_after(Outcome::<T>::Faulted, before) == (Report {
            message: Some(nul_terminated(internal_message())),
            failed: 1,
            code: 1,
        }),
        nul_terminated(internal_message()).len() == 15,
        nul_terminated(internal_message())[0] != 0,
{
    let text = internal_message();
    reveal_strlit("internal error");
    assert(text.len() == 14);
    assert(is_ascii_chars(text));
    is_ascii_chars_encode_utf8(text);
    assert(text[0] == 'i');
}

/// Every call that does not succeed returns the sentinel and, where the
/// caller gave a descriptor, leaves it with `failed` set, a code of the fixed
/// enumeration and a message that ends in its terminator. The message holds
/// more than the terminator exactly when the error has a rendering at all.
pub proof fn failure_is_reported<T: Zeroed>(outcome: Outcome<T>, before: Report)
    requires
        !succeeded(outcome),
    ensures
        returned_value(outcome) == T::zero(),
        descriptor_after(outcome, before).failed == 1,
        is_error_code(descriptor_after(outcome, before).code),
        descriptor_after(outcome, before).message is Some,
        descriptor_after(outcome, before).message->0.len() >= 1,
        descriptor_after(outcome, before).message->0.last() == 0,
        descriptor_after(outcome, before).message->0.len() > 1 <==> reported_error(
            outcome,
        )->0.message.len() > 0,
{
    message_shape(reported_error(outcome)->0.message);
}

/// What a failed call writes does not depend on what the descriptor held
/// before: the descriptor is written and never read.
pub proof fn report_ignores_descriptor<T>(outcome: Outcome<T>, before: Report, other: Report)
    requires
        !succeeded(outcome),
    ensures
        descriptor_after(outcome, before) == descriptor_after(outcome, other),
{
}

/// The sentinel signals failure. Where the work never yields the sentinel as
/// a value, as with the address of a fresh allocation, and the caller's
/// descriptor was clear before the call, the call returns the sentinel exactly
/// when it sets `failed`.
pub proof fn sentinel_signals_failure<T: Zeroed>(outcome: Outcome<T>, before: Report)
    requires
        before.failed == 0,
        outcome matches Outcome::Completed(Ok(value)) ==> value != T::zero(),
    ensures
        returned_value(outcome) == T::zero() <==> descriptor_after(outcome, before).failed != 0,
{
}

/// A descriptor stays well formed through any call, however the call ends.
pub proof fn landing_keeps_descriptor_well_formed<T: Zeroed>(outcome: Outcome<T>, before: Report)
    requires
        before.well_formed(),
    ensures
        descriptor_after(outcome, before).well_formed(),
{
    if !succeeded(outcome) {
        failure_is_reported(outcome, before);
    }
}

} // verus!
