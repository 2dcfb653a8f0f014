//! Timestamped entries for the bounded session action log.
use vstd::prelude::*;

verus! {

/// Relies on std::time::SystemTime::now and duration_since: whole seconds
/// since the Unix epoch, zero if the clock reads before the epoch.
/// Nothing can be promised of the clock's value.
#[verifier::external_body]
pub fn unix_time_now() -> u64 {
    std::time::SystemTime::now().duration_since(std::time::UNIX_EPOCH).map(
        |d| d.as_secs(),
    ).unwrap_or(0)
}

#[derive(Debug, Clone)]
pub struct LogEntry {
    pub round: u32,
    pub message: String,
    pub timestamp: u64,
}

impl LogEntry {
    pub fn new(round: u32, message: String) -> (r: Self)
        ensures
            r.round == round,
            r.message == message,
    {
        let timestamp = unix_time_now();
        Self { round, message, timestamp }
    }
}

} // verus!
