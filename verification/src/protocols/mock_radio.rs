//! A radio that receives nothing, for tests.
use vstd::prelude::*;
use crate::rx_receiver::{RxFrame, RxLinkStatus, initial_channel_values};

verus! {

/// Mock radio.
#[derive(Clone, Copy, Debug, PartialEq, Eq)]
pub struct MockRadio {}

impl Default for MockRadio {
    fn default() -> (r: Self)
        ensures
            r == (MockRadio {}),
    {
        Self::new()
    }
}

impl MockRadio {
    /// Constructor.
    #[must_use]
    pub fn new() -> (r: Self)
        ensures
            r == (MockRadio {}),
    {
        Self {}
    }

    /// The frame of the mock radio: always a default frame.
    pub fn rx_frame(&self) -> (r: RxFrame)
        ensures
            r.channels@ == initial_channel_values(),
            r.status == RxLinkStatus::Okay,
            r.rssi == 0,
    {
        RxFrame::default()
    }
}

} // verus!
