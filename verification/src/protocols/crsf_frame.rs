//! A CRSF frame with link flags and RSSI.
use vstd::prelude::*;
use vstd::std_specs::convert::FromSpecImpl;
use crate::rx_receiver::{RxFrame, RxLinkStatus};

verus! {

/// A CRSF frame: channels, failsafe and frame-lost flags, RSSI.
#[derive(Clone, Copy, Debug, PartialEq, Eq)]
pub struct CrsfFrame {
    pub channels: [u16; 16],
    pub failsafe: bool,
    pub frame_lost: bool,
    pub rssi: u8,
}

impl Default for CrsfFrame {
    fn default() -> (r: Self)
        ensures
            r.channels@ == Seq::new(16, |i: int| 0u16),
            !r.failsafe && !r.frame_lost && r.rssi == 0,
    {
        Self::new()
    }
}

impl CrsfFrame {
    pub const CHANNEL_COUNT: usize = 16;

    /// Constructor: all channels 0, no flag set, RSSI 0.
    pub fn new() -> (r: Self)
        ensures
            r.channels@ == Seq::new(16, |i: int| 0u16),
            !r.failsafe && !r.frame_lost && r.rssi == 0,
    {
        let r = Self { channels: [0u16; 16], failsafe: false, frame_lost: false, rssi: 0 };
        assert(r.channels@ =~= Seq::new(16, |i: int| 0u16));
        r
    }
}

/// The link status of a CRSF frame: `Failsafe`, else `NoSignal` when the frame is lost,
/// else `Okay`.
pub open spec fn crsf_frame_link_status(frame: CrsfFrame) -> RxLinkStatus {
    if frame.failsafe {
        RxLinkStatus::Failsafe
    } else if frame.frame_lost {
        RxLinkStatus::NoSignal
    } else {
        RxLinkStatus::Okay
    }
}

impl From<CrsfFrame> for RxFrame {
    fn from(frame: CrsfFrame) -> (r: Self)
        ensures
            r.channels == frame.channels,
            r.status == crsf_frame_link_status(frame),
            r.rssi == frame.rssi,
    {
        let status = if frame.failsafe {
            RxLinkStatus::Failsafe
        } else if frame.frame_lost {
            RxLinkStatus::NoSignal
        } else {
            RxLinkStatus::Okay
        };
        RxFrame { channels: frame.channels, status, rssi: frame.rssi }
    }
}

impl FromSpecImpl<CrsfFrame> for RxFrame {
    open spec fn obeys_from_spec() -> bool {
        true
    }

    open spec fn from_spec(frame: CrsfFrame) -> RxFrame {
        RxFrame { channels: frame.channels, status: crsf_frame_link_status(frame), rssi: frame.rssi }
    }
}

} // verus!
