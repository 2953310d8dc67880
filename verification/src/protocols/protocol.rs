//! The common interface of the RC protocols driven from a serial interrupt handler.
use vstd::prelude::*;

verus! {

/// The common interface for all RC protocols.
pub trait RxProtocol {
    /// Whether the interrupt handler has room for the next byte of the current packet.
    spec fn has_room_for_byte(&self) -> bool;

    fn is_data_available(&self) -> bool;

    fn on_data_received_from_isr(&mut self, data: u8) -> bool
        requires
            old(self).has_room_for_byte(),
    ;

    fn read_byte(&mut self) -> u8;
}

} // verus!
