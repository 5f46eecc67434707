//! Timing sections of work, and how elapsed time is written.
use vstd::prelude::*;
use vstd::string::*;

use crate::text::{decimal, decimal_string};

verus! {

#[verifier::external_type_specification]
#[verifier::external_body]
pub struct ExInstant(std::time::Instant);

/// Relies on `Instant::now`: the current instant. Nothing is known of it.
pub assume_specification[ std::time::Instant::now ]() -> std::time::Instant;

/// Relies on `Instant::elapsed`: the time since the instant. Nothing is known of it.
pub assume_specification[ std::time::Instant::elapsed ](i: &std::time::Instant) -> core::time::Duration;

/// Relies on `Duration::as_millis`: the whole milliseconds of a duration.
pub assume_specification[ core::time::Duration::as_millis ](d: &core::time::Duration) -> u128;

/// How an elapsed time of `millis` milliseconds is written: plain
/// milliseconds up to one second, else whole seconds and the milliseconds
/// left over.
pub open spec fn elapsed_text(millis: nat) -> Seq<char> {
    if millis > 1000 {
        decimal(millis / 1000) + " seconds, "@ + decimal(millis % 1000) + " ms"@
    } else {
        decimal(millis) + " ms"@
    }
}

/// Writes an elapsed time of `millis` milliseconds, as `elapsed_text` states.
pub fn format_elapsed(millis: u128) -> (r: String)
    ensures
        r@ == elapsed_text(millis as nat),
{
    if millis > 1000 {
        let secs = millis / 1000;
        decimal_string(secs).concat(" seconds, ").concat(decimal_string(millis - secs * 1000).as_str()).concat(
            " ms",
        )
    } else {
        decimal_string(millis).concat(" ms")
    }
}

/// Times a section of work.
pub struct Timer {
    start_time: std::time::Instant,
}

impl Timer {
    /// Starts a timer.
    pub fn start() -> (r: Timer) {
        Timer { start_time: std::time::Instant::now() }
    }

    /// The time since the timer started, written as `elapsed_text` states for
    /// some number of milliseconds.
    pub fn stop(&self) -> (r: String)
        ensures
            exists|m: nat| r@ == elapsed_text(m),
    {
        let elapsed = self.start_time.elapsed();
        let millis = elapsed.as_millis();
        format_elapsed(millis)
    }
}

} // verus!
