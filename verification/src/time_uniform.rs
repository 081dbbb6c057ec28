//! The time uniform: the one value that animates the stars.
//!
//! The shader receives the elapsed time as a single float in a uniform
//! buffer. The library keeps the time as whole milliseconds since the
//! UNIX epoch; the caller scales it to seconds as a float when filling
//! the buffer.

use vstd::prelude::*;

verus! {

/// Byte size of the uniform buffer the shader reads: one 32-bit float.
pub const TIME_UNIFORM_BUFFER_BYTES: u64 = 4;

/// Byte size of the time uniform record as it is written to the queue:
/// the float and twelve bytes of padding.
pub const TIME_UNIFORM_RECORD_BYTES: u64 = 16;

/// The value of the time uniform, in whole milliseconds since the UNIX
/// epoch.
#[derive(Clone, Copy, Debug, PartialEq, Eq, Structural)]
pub struct TimeUniform {
    /// Milliseconds since the UNIX epoch; zero before the first reading.
    pub time_millis: u64,
}

/// Relies on std::time::SystemTime::now and
/// std::time::SystemTime::duration_since against std::time::UNIX_EPOCH:
/// the wall clock's reading, in whole milliseconds since the UNIX epoch,
/// or zero should the clock read earlier than the epoch. Nothing is
/// promised of the value: it depends on the clock alone.
#[verifier::external_body]
fn wall_clock_millis() -> u64 {
    match std::time::SystemTime::now().duration_since(std::time::UNIX_EPOCH) {
        Ok(elapsed) => elapsed.as_millis() as u64,
        Err(_) => 0,
    }
}

impl TimeUniform {
    /// The uniform at time zero.
    pub fn new() -> (uniform: TimeUniform)
        ensures
            uniform.time_millis == 0,
    {
        TimeUniform { time_millis: 0 }
    }

    /// The uniform holding the given reading.
    pub fn with_millis(millis: u64) -> (uniform: TimeUniform)
        ensures
            uniform.time_millis == millis,
    {
        TimeUniform { time_millis: millis }
    }

    /// The uniform holding the wall clock's reading now. The value depends
    /// on the clock, so nothing is promised of it.
    pub fn after_duration(&self) -> TimeUniform {
        TimeUniform::with_millis(wall_clock_millis())
    }
}

} // verus!
