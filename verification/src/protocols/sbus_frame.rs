//! The SBUS frame: sixteen 11-bit channels, a flags byte and RSSI.
use vstd::prelude::*;
use vstd::std_specs::convert::FromSpecImpl;
use crate::rx_receiver::{RxFrame, RxLinkStatus};

verus! {

/// SBUS channel value normalized from the SBUS range `[172, 1811]` to the PWM range
/// `[1000, 2000]`; values outside the SBUS range are clamped first.
pub open spec fn normalize_sbus_value(v: u16) -> u16 {
    let c: int = if v < 172 {
        172
    } else if v > 1811 {
        1811
    } else {
        v as int
    };
    ((c - 172) * 1000 / 1639 + 1000) as u16
}

/// Normalization maps the SBUS range onto the PWM range: 172 (and below) gives 1000, the
/// SBUS mid-stick value 992 gives 1500, 1811 (and above) gives 2000, every result lies in
/// `[1000, 2000]`, and a larger SBUS value never gives a smaller result.
pub proof fn lemma_normalize_sbus_maps_range(a: u16, b: u16)
    ensures
        normalize_sbus_value(172) == 1000,
        normalize_sbus_value(992) == 1500,
        normalize_sbus_value(1811) == 2000,
        a <= 172 ==> normalize_sbus_value(a) == 1000,
        a >= 1811 ==> normalize_sbus_value(a) == 2000,
        1000 <= normalize_sbus_value(a) <= 2000,
        a <= b ==> normalize_sbus_value(a) <= normalize_sbus_value(b),
{
    assert((992int - 172) * 1000 / 1639 == 500);
    assert((1811int - 172) * 1000 / 1639 == 1000);
    let ca: int = if a < 172 { 172 } else if a > 1811 { 1811 } else { a as int };
    let cb: int = if b < 172 { 172 } else if b > 1811 { 1811 } else { b as int };
    assert(0 <= (ca - 172) * 1000 / 1639 <= 1000) by (nonlinear_arith)
        requires
            172 <= ca <= 1811,
    ;
    if a <= b {
        assert((ca - 172) * 1000 / 1639 <= (cb - 172) * 1000 / 1639) by (nonlinear_arith)
            requires
                172 <= ca <= cb <= 1811,
        ;
    }
}

/// An SBUS frame as produced by the decoder.
#[derive(Clone, Copy, Debug, PartialEq, Eq)]
pub struct SbusFrame {
    pub channels: [u16; 16],
    pub flags: u8,
    pub rssi: u8,
}

impl Default for SbusFrame {
    fn default() -> (r: Self)
        ensures
            r.channels@ == Seq::new(16, |i: int| 0u16),
            r.flags == 0,
            r.rssi == 0,
    {
        Self::new()
    }
}

impl SbusFrame {
    // Channels AUX13 and AUX14 (the digital channels in the flags byte) are not used,
    // since no other protocol uses more than 16 channels.
    pub const CHANNEL_COUNT: usize = 16;
    /// Flag bit of digital channel 17 (deliberately not supported).
    pub const AUX13: u8 = 0x01;
    /// Flag bit of digital channel 18 (deliberately not supported).
    pub const AUX14: u8 = 0x02;
    /// Flag bit: signal was missed this frame.
    pub const FRAME_LOST: u8 = 0x04;
    /// Flag bit: receiver has completely lost connection.
    pub const FAILSAFE: u8 = 0x08;

    /// Constructor.
    #[must_use]
    pub fn new() -> (r: Self)
        ensures
            r.channels@ == Seq::new(16, |i: int| 0u16),
            r.flags == 0,
            r.rssi == 0,
    {
        let r = Self { channels: [0u16; 16], flags: 0, rssi: 0 };
        assert(r.channels@ =~= Seq::new(16, |i: int| 0u16));
        r
    }

    /// SBUS values typically range from 172 to 1811 (representing 1000µs to 2000µs),
    /// so they need to be normalized to the standard PWM range `[1000,2000]`.
    #[must_use]
    pub fn normalize_channels(input: &[u16; 16]) -> (r: [u16; 16])
        ensures
            forall|i: int| 0 <= i < 16 ==> r@[i] == normalize_sbus_value(#[trigger] input@[i]),
    {
        let mut output = [0u16; 16];
        let mut i: usize = 0;
        while i < 16
            invariant
                i <= 16,
                output@.len() == 16,
                forall|j: int| 0 <= j < i ==> output@[j] == normalize_sbus_value(#[trigger] input@[j]),
            decreases 16 - i,
        {
            let v = input[i] as u32;
            let val: u32 = if v < 172 {
                172
            } else if v > 1811 {
                1811
            } else {
                v
            };
            output[i] = ((val - 172) * 1000 / 1639 + 1000) as u16;
            i += 1;
        }
        output
    }
}

/// The link status an SBUS flags byte reports: `Failsafe` when the failsafe bit is set,
/// otherwise `NoSignal` when the frame-lost bit is set, otherwise `Okay`.
pub open spec fn sbus_link_status(flags: u8) -> RxLinkStatus {
    if flags & 0x08u8 != 0 {
        RxLinkStatus::Failsafe
    } else if flags & 0x04u8 != 0 {
        RxLinkStatus::NoSignal
    } else {
        RxLinkStatus::Okay
    }
}

impl From<SbusFrame> for RxFrame {
    /// The receiver frame of an SBUS frame: its channels and RSSI, and the link status its
    /// flags report.
    fn from(frame: SbusFrame) -> (r: Self)
        ensures
            r.channels == frame.channels,
            r.status == sbus_link_status(frame.flags),
            r.rssi == frame.rssi,
    {
        let status = if frame.flags & SbusFrame::FAILSAFE != 0 {
            RxLinkStatus::Failsafe
        } else if frame.flags & SbusFrame::FRAME_LOST != 0 {
            RxLinkStatus::NoSignal
        } else {
            RxLinkStatus::Okay
        };
        RxFrame { channels: frame.channels, status, rssi: frame.rssi }
    }
}

impl FromSpecImpl<SbusFrame> for RxFrame {
    open spec fn obeys_from_spec() -> bool {
        true
    }

    open spec fn from_spec(frame: SbusFrame) -> RxFrame {
        RxFrame { channels: frame.channels, status: sbus_link_status(frame.flags), rssi: frame.rssi }
    }
}

} // verus!
