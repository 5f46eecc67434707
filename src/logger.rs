//! Log lines on standard error.
use std::io::Write;
use vstd::prelude::*;
use vstd::string::*;

use crate::failure::{newline, SauceError};

verus! {

/// Writes log lines to standard error.
pub struct Logger {}

/// The tag in front of a logged error.
pub open spec fn error_tag() -> Seq<char> {
    "❌ "@
}

/// The text that `Logger::error` writes: the error tag, then the original
/// error's text and the message under it when there is an original error,
/// else the message alone.
pub open spec fn error_entry(message: Seq<char>, original_error: Option<SauceError>) -> Seq<char> {
    match original_error {
        Some(e) => error_tag() + e.text() + newline() + message,
        None => error_tag() + message,
    }
}

impl Logger {
    /// Relies on `writeln!` to `std::io::stderr`: writes the message and a
    /// line break to standard error, ignoring a failed write.
    #[verifier::external_body]
    pub fn info(message: &str) {
        let _ = writeln!(std::io::stderr(), "{}", message);
    }

    /// The text that `error` writes, as `error_entry` states.
    pub fn error_text(message: &str, original_error: Option<SauceError>) -> (r: String)
        ensures
            r@ == error_entry(message@, original_error),
    {
        proof {
            reveal_strlit("\n");
        }
        match original_error {
            Some(e) => String::from_str("❌ ").concat(e.render().as_str()).concat("\n").concat(
                message,
            ),
            None => String::from_str("❌ ").concat(message),
        }
    }

    /// Logs an error: the message, under the error that caused it if any.
    pub fn error(message: &str, original_error: Option<SauceError>) {
        let line = Logger::error_text(message, original_error);
        Logger::info(line.as_str());
    }
}

} // verus!
