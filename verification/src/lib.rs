//! A panic-safe boundary between fallible native operations and C callers.
//!
//! A C caller cannot match on a sum-type error, cannot survive an unwind and
//! has no destructors. This library holds the rules by which the outcome of
//! one exported call becomes what such a caller sees: a plain return value,
//! zero on failure, and an error descriptor with a stable numeric code and a
//! nul-terminated message.

pub mod buffer;
pub mod descriptor;
pub mod error;
pub mod landing;
pub mod message;

pub use descriptor::{notify_err, CError};
pub use error::{get_error_code, Error, ErrorKind};
pub use landing::{landingpad, Outcome, Zeroed};
pub use message::c_string;
