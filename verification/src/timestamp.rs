use std::time::{SystemTime, UNIX_EPOCH};
use vstd::prelude::*;

verus! {

/// A point in time, held as the whole seconds and the nanoseconds that have
/// passed since the Unix epoch.
#[derive(Clone, Copy, Debug, PartialEq, Eq, Structural)]
pub struct Timestamp {
    pub secs_since_epoch: u64,
    pub nanos_since_epoch: u32,
}

impl Timestamp {
    /// The epoch itself, used for "never".
    pub fn zero() -> (t: Timestamp)
        ensures
            t.secs_since_epoch == 0,
            t.nanos_since_epoch == 0,
    {
        Timestamp { secs_since_epoch: 0, nanos_since_epoch: 0 }
    }
}

/// Reads the clock with `SystemTime::now` of std and gives the time that has
/// passed since the Unix epoch, or the epoch itself where the clock stands
/// before it. Nothing is claimed of the value: it depends on the moment of
/// the call.
#[verifier::external_body]
pub(crate) fn now() -> (t: Timestamp) {
    match SystemTime::now().duration_since(UNIX_EPOCH) {
        Ok(d) => Timestamp { secs_since_epoch: d.as_secs(), nanos_since_epoch: d.subsec_nanos() },
        Err(_) => Timestamp { secs_since_epoch: 0, nanos_since_epoch: 0 },
    }
}

} // verus!
