//! Serial-port bookkeeping shared by serial receivers.
use vstd::prelude::*;

verus! {

/// Serial-port bookkeeping of a receiver.
#[derive(Clone, Copy, Debug, PartialEq, Eq, Structural)]
pub struct ReceiverSerial {
    pub packet_is_empty: bool,
    pub received_packet_count: u32,
    pub error_packet_count: i32,
    pub packet_index: usize,
    pub start_time: u32,
}

impl ReceiverSerial {
    /// The initial bookkeeping: packet empty, counts and times zero.
    pub open spec fn new_spec() -> Self {
        ReceiverSerial {
            packet_is_empty: true,
            received_packet_count: 0,
            error_packet_count: 0,
            packet_index: 0,
            start_time: 0,
        }
    }

    /// Constructor: packet empty, counts and times zero.
    pub fn new() -> (r: Self)
        ensures
            r == Self::new_spec(),
    {
        Self { packet_is_empty: true, received_packet_count: 0, error_packet_count: 0, packet_index: 0, start_time: 0 }
    }
}

impl Default for ReceiverSerial {
    fn default() -> (r: Self)
        ensures
            r == Self::new_spec(),
    {
        Self::new()
    }
}

} // verus!
