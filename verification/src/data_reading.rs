//! Handing samples over from the front-end without ever delivering a torn one.
//!
//! The front-end raises a flag when new readings are ready. Reading them takes
//! time, and the flag may be raised again meanwhile: the readings then mix two
//! sampling instants and are dropped.

use vstd::prelude::*;
use crate::data_sending::RawData;

verus! {

/// What to do on a poll tick.
#[derive(Clone, Copy, Debug, PartialEq, Eq, Structural)]
pub enum Poll {
    /// No readings are ready: leave the flag and the front-end alone.
    Idle,
    /// Readings are ready: clear the flag, then read the front-end.
    ClearAndRead,
}

/// What became of a read.
#[derive(Clone, Copy, Debug, PartialEq, Eq, Structural)]
pub enum Delivery {
    /// The readings are consistent and go to the callback.
    Deliver(RawData),
    /// The flag was raised again during the read: the readings are dropped.
    Overlapped,
    /// The front-end failed to read: there is nothing to deliver.
    Failed,
}

/// Decides what to do on a poll tick, given the flag.
pub fn get_readings(data_ready: bool) -> (r: Poll)
    ensures
        r == if data_ready {
            Poll::ClearAndRead
        } else {
            Poll::Idle
        },
{
    if data_ready {
        Poll::ClearAndRead
    } else {
        Poll::Idle
    }
}

/// What becomes of a read, given the flag as it stands after the read and the
/// readings, if the read succeeded.
pub open spec fn spec_delivery(ready_after_read: bool, readings: Option<RawData>) -> Delivery {
    if ready_after_read {
        Delivery::Overlapped
    } else {
        match readings {
            Some(data) => Delivery::Deliver(data),
            None => Delivery::Failed,
        }
    }
}

/// Decides what becomes of a read that followed the clearing of the flag.
///
/// Readings are delivered only if the flag is still clear after the read. If
/// the flag was raised again, the readings are dropped, whether or not the
/// read succeeded.
pub fn request_readings(ready_after_read: bool, readings: Option<RawData>) -> (r: Delivery)
    ensures
        r == spec_delivery(ready_after_read, readings),
{
    if ready_after_read {
        Delivery::Overlapped
    } else {
        match readings {
            Some(data) => Delivery::Deliver(data),
            None => Delivery::Failed,
        }
    }
}

/// Readings are delivered exactly when the read succeeded and the flag stayed
/// clear, and then they are the readings that were read.
pub proof fn lemma_no_torn_delivery(ready_after_read: bool, readings: Option<RawData>)
    ensures
        spec_delivery(ready_after_read, readings) is Deliver <==> !ready_after_read
            && readings.is_some(),
        spec_delivery(ready_after_read, readings) matches Delivery::Deliver(data) ==> readings
            == Some(data),
{
}

} // verus!
