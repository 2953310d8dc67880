//! SBUS radio: an SBUS decoder together with the last frame received.
use vstd::prelude::*;
use crate::protocols::sbus_decoder::{SbusDecoder, SbusOutput, sbus_step};
use crate::protocols::sbus_frame::sbus_link_status;
use crate::rx_radio::RxRadio;
use crate::rx_receiver::{RxFrame, RxLinkStatus, initial_channel_values};
use crate::protocols::sbus_decoder::packed_channels_spec;

verus! {

/// SBUS radio.
#[derive(Clone, Copy, Debug, PartialEq)]
pub struct SbusRadio {
    decoder: SbusDecoder,
    rx_frame: RxFrame,
}

/// Whether `f` is the receiver frame of the SBUS packet prefix `packet`: the channels unpacked
/// from bytes 1..23, the link status that the flags byte (byte 23) reports, RSSI 0.
pub open spec fn is_sbus_rx_frame_of(f: RxFrame, packet: Seq<u8>) -> bool {
    &&& f.channels@ == packed_channels_spec(packet.subrange(1, 23))
    &&& f.status == sbus_link_status(packet[23])
    &&& f.rssi == 0
}

/// How receiving `byte` takes an SBUS radio from `before` to `after`, returning `received`:
/// the decoder steps, and when a packet completes its frame becomes the last frame.
pub open spec fn sbus_radio_receives(before: SbusRadio, byte: u8, after: SbusRadio, received: bool) -> bool {
    &&& after.pending() == sbus_step(before.pending(), byte).0
    &&& match sbus_step(before.pending(), byte).1 {
        SbusOutput::Nothing => !received && after.last_frame() == before.last_frame(),
        SbusOutput::Frame(packet) => received && is_sbus_rx_frame_of(after.last_frame(), packet),
    }
}

impl SbusRadio {
    /// The bytes of the current packet received so far.
    pub closed spec fn pending(&self) -> Seq<u8> {
        self.decoder@
    }

    /// The last frame received.
    pub closed spec fn last_frame(&self) -> RxFrame {
        self.rx_frame
    }

    /// Constructor: waiting for a packet; the last frame is a new `RxFrame`.
    #[must_use]
    pub fn new() -> (r: Self)
        ensures
            sbus_radio_is_new(r),
    {
        Self { decoder: SbusDecoder::new(), rx_frame: RxFrame::new() }
    }
}

/// Whether `r` is a new radio: waiting for a packet, with a new `RxFrame` as its last frame.
pub open spec fn sbus_radio_is_new(r: SbusRadio) -> bool {
    &&& r.pending() == Seq::<u8>::empty()
    &&& r.last_frame().channels@ == initial_channel_values()
    &&& r.last_frame().status == RxLinkStatus::Okay
    &&& r.last_frame().rssi == 0
}

impl Default for SbusRadio {
    fn default() -> (r: Self)
        ensures
            sbus_radio_is_new(r),
    {
        Self::new()
    }
}

impl RxRadio for SbusRadio {
    /// Feeds a byte to the decoder; returns true when it completes a frame, which then
    /// becomes the last frame.
    fn on_byte_received(&mut self, byte: u8) -> (r: bool)
        ensures
            sbus_radio_receives(*old(self), byte, *final(self), r),
    {
        match self.decoder.on_byte_received(byte) {
            Some(frame) => {
                self.rx_frame = RxFrame::from(frame);
                true
            },
            None => false,
        }
    }

    /// The last frame received.
    fn rx_frame(&self) -> (r: RxFrame)
        ensures
            r == self.last_frame(),
    {
        self.rx_frame
    }
}

} // verus!
