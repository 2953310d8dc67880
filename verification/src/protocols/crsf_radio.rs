//! Crossfire (CRSF) radio: a CRSF decoder together with the last frame received.
use vstd::prelude::*;
use crate::protocols::crsf_decoder::{CrsfDecoder, CrsfModel, CrsfPhase, crsf_step, crsf_model_wf};
use crate::rx_radio::RxRadio;
use crate::rx_receiver::{RxFrame, RxLinkStatus, initial_channel_values};

verus! {

/// Crossfire radio.
#[derive(Clone, Copy, Debug, PartialEq)]
pub struct CrsfRadio {
    decoder: CrsfDecoder,
    rx_frame: RxFrame,
}

/// How receiving `byte` takes a CRSF radio from `before` to `after`, returning `received`:
/// the decoder steps, and when an RC channels packet passes its CRC check the last frame
/// becomes its channels, with link `Okay` and RSSI 0.
pub open spec fn crsf_radio_receives(before: CrsfRadio, byte: u8, after: CrsfRadio, received: bool) -> bool {
    &&& after.decoder_state() == crsf_step(before.decoder_state(), byte).0
    &&& match crsf_step(before.decoder_state(), byte).1 {
        None => !received && after.last_frame() == before.last_frame(),
        Some(channels) => received && after.last_frame().channels@ == channels
            && after.last_frame().status == RxLinkStatus::Okay && after.last_frame().rssi == 0,
    }
}

impl CrsfRadio {
    pub const TIME_NEEDED_PER_FRAME_US: u32 = 1750;
    pub const CRSF_SYNC_BYTE: u8 = 0xC8;
    pub const EDGE_TX_SYNC_BYTE: u8 = 0xEE;

    /// The state of the decoder.
    pub closed spec fn decoder_state(&self) -> CrsfModel {
        self.decoder@
    }

    /// The last frame received.
    pub closed spec fn last_frame(&self) -> RxFrame {
        self.rx_frame
    }

    /// Constructor: a new decoder; the last frame is a new `RxFrame`.
    #[must_use]
    pub fn new() -> (r: Self)
        ensures
            crsf_radio_is_new(r),
    {
        Self { decoder: CrsfDecoder::new(), rx_frame: RxFrame::new() }
    }
}

/// Whether `r` is a new radio: a new decoder (waiting for an address byte, buffer zero,
/// channels at 1000), with a new `RxFrame` as its last frame.
pub open spec fn crsf_radio_is_new(r: CrsfRadio) -> bool {
    &&& r.decoder_state().phase == CrsfPhase::WaitForAddressByte
    &&& r.decoder_state().buffer == Seq::new(23, |i: int| 0u8)
    &&& r.decoder_state().channels == Seq::new(16, |i: int| 1000u16)
    &&& crsf_model_wf(r.decoder_state())
    &&& r.last_frame().channels@ == initial_channel_values()
    &&& r.last_frame().status == RxLinkStatus::Okay
    &&& r.last_frame().rssi == 0
}

impl Default for CrsfRadio {
    fn default() -> (r: Self)
        ensures
            crsf_radio_is_new(r),
    {
        Self::new()
    }
}

impl RxRadio for CrsfRadio {
    /// Feeds a byte to the decoder; returns true when it decodes an RC channels packet,
    /// whose channels then become the last frame.
    fn on_byte_received(&mut self, byte: u8) -> (r: bool)
        ensures
            crsf_radio_receives(*old(self), byte, *final(self), r),
    {
        match self.decoder.on_byte_received(byte) {
            Some(frame) => {
                self.rx_frame = RxFrame { channels: frame.channels, status: RxLinkStatus::Okay, rssi: 0 };
                true
            },
            None => false,
        }
    }

    /// The last frame received.
    fn rx_frame(&self) -> (r: RxFrame)
        ensures
            r == self.last_frame(),
    {
        self.rx_frame
    }
}

} // verus!
