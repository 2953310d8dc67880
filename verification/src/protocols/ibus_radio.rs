//! iBUS radio: an iBUS decoder together with the last frame received.
use vstd::prelude::*;
use crate::protocols::ibus_decoder::{IbusDecoder, IbusOutput, ibus_step, is_ibus_frame_of};
use crate::rx_radio::RxRadio;
use crate::rx_receiver::{RxFrame, RxLinkStatus, initial_channel_values};

verus! {

/// iBUS radio.
#[derive(Clone, Copy, Debug, PartialEq)]
pub struct IbusRadio {
    decoder: IbusDecoder,
    rx_frame: RxFrame,
}

/// How receiving `byte` takes an iBUS radio from `before` to `after`, returning `received`:
/// the decoder steps, and when a packet with a correct checksum completes its frame becomes
/// the last frame.
pub open spec fn ibus_radio_receives(before: IbusRadio, byte: u8, after: IbusRadio, received: bool) -> bool {
    &&& after.pending() == ibus_step(before.pending(), byte).0
    &&& match ibus_step(before.pending(), byte).1 {
        IbusOutput::Nothing => !received && after.last_frame() == before.last_frame(),
        IbusOutput::Frame(packet) => received && is_ibus_frame_of(after.last_frame(), packet),
    }
}

impl IbusRadio {
    /// The bytes of the current packet received so far.
    pub closed spec fn pending(&self) -> Seq<u8> {
        self.decoder@
    }

    /// The last frame received.
    pub closed spec fn last_frame(&self) -> RxFrame {
        self.rx_frame
    }

    /// Constructor: waiting for a packet; the last frame is a new `RxFrame`.
    #[must_use]
    pub fn new() -> (r: Self)
        ensures
            ibus_radio_is_new(r),
    {
        Self { decoder: IbusDecoder::new(), rx_frame: RxFrame::new() }
    }
}

/// Whether `r` is a new radio: waiting for a packet, with a new `RxFrame` as its last frame.
pub open spec fn ibus_radio_is_new(r: IbusRadio) -> bool {
    &&& r.pending() == Seq::<u8>::empty()
    &&& r.last_frame().channels@ == initial_channel_values()
    &&& r.last_frame().status == RxLinkStatus::Okay
    &&& r.last_frame().rssi == 0
}

impl Default for IbusRadio {
    fn default() -> (r: Self)
        ensures
            ibus_radio_is_new(r),
    {
        Self::new()
    }
}

impl RxRadio for IbusRadio {
    /// Feeds a byte to the decoder; returns true when it completes a frame, which then
    /// becomes the last frame.
    fn on_byte_received(&mut self, byte: u8) -> (r: bool)
        ensures
            ibus_radio_receives(*old(self), byte, *final(self), r),
    {
        match self.decoder.on_byte_received(byte) {
            Some(frame) => {
                self.rx_frame = frame;
                true
            },
            None => false,
        }
    }

    /// The last frame received.
    fn rx_frame(&self) -> (r: RxFrame)
        ensures
            r == self.last_frame(),
    {
        self.rx_frame
    }
}

} // verus!
