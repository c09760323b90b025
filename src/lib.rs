//! Session core of a client for a length-framed, request/response wire
//! protocol: the table that matches replies to pending requests, and the
//! decision steps of the write and read units that share it.
use vstd::prelude::*;

pub mod channel_info;
pub mod laws;
pub mod read_unit;
pub mod table;
pub mod write_unit;

verus! {

/// Number of submitted requests the submission queue holds before
/// `request` makes its caller wait.
pub const REQUEST_QUEUE_CAPACITY: usize = 32;

/// Number of unsolicited items the broadcast ring keeps for a subscriber
/// that has not read them yet; a newer item overwrites the oldest.
pub const BROADCAST_CAPACITY: usize = 128;

} // verus!
