//! In-flight adjustment configuration and state.
use vstd::prelude::*;
use crate::rx_channel::RxChannelRange;

verus! {

/// An adjustment range: when the aux channel is in `range`, apply the adjustment function
/// to the aux switch channel.
#[derive(Clone, Copy, Debug, PartialEq, Eq, Structural)]
pub struct RcAdjustmentRange {
    pub range: RxChannelRange,
    pub aux_channel_index: u8,
    pub adjustment_config: u8,
    pub aux_switch_channel_index: u8,
    pub adjustment_center: u8,
    pub adjustment_scale: u16,
}

impl RcAdjustmentRange {
    /// Constructor: every field zero.
    pub fn new() -> (r: Self)
        ensures
            r == (RcAdjustmentRange {
                range: RxChannelRange { start: 0, end: 0 },
                aux_channel_index: 0,
                adjustment_config: 0,
                aux_switch_channel_index: 0,
                adjustment_center: 0,
                adjustment_scale: 0,
            }),
    {
        Self {
            range: RxChannelRange::new(),
            aux_channel_index: 0,
            adjustment_config: 0,
            aux_switch_channel_index: 0,
            adjustment_center: 0,
            adjustment_scale: 0,
        }
    }
}

impl Default for RcAdjustmentRange {
    fn default() -> (r: Self)
        ensures
            r == (RcAdjustmentRange {
                range: RxChannelRange { start: 0, end: 0 },
                aux_channel_index: 0,
                adjustment_config: 0,
                aux_switch_channel_index: 0,
                adjustment_center: 0,
                adjustment_scale: 0,
            }),
    {
        Self::new()
    }
}

/// How an adjustment is applied.
#[derive(Debug, Clone, Copy, PartialEq, Eq, Structural)]
pub enum RcAdjustmentMode {
    Step,
    Select,
}

impl Default for RcAdjustmentMode {
    fn default() -> (r: Self)
        ensures
            r == RcAdjustmentMode::Step,
    {
        Self::Step
    }
}

impl RcAdjustmentMode {
    /// The default mode, `Step`.
    pub fn new() -> (r: Self)
        ensures
            r == RcAdjustmentMode::Step,
    {
        Self::Step
    }
}

/// State of a timed adjustment.
#[derive(Clone, Copy, Debug, PartialEq, Eq, Structural)]
pub struct RcTimedAdjustmentState {
    pub timeout_at_milliseconds: u32,
    pub adjustment_range_index: u8,
    pub ready: u8,
}

impl RcTimedAdjustmentState {
    /// Constructor: every field zero.
    pub fn new() -> (r: Self)
        ensures
            r == (RcTimedAdjustmentState { timeout_at_milliseconds: 0, adjustment_range_index: 0, ready: 0 }),
    {
        Self { timeout_at_milliseconds: 0, adjustment_range_index: 0, ready: 0 }
    }
}

impl Default for RcTimedAdjustmentState {
    fn default() -> (r: Self)
        ensures
            r == (RcTimedAdjustmentState { timeout_at_milliseconds: 0, adjustment_range_index: 0, ready: 0 }),
    {
        Self::new()
    }
}

/// State of a continuous adjustment.
#[derive(Clone, Copy, Debug, PartialEq, Eq, Structural)]
pub struct RcContinuosAdjustmentState {
    pub adjustment_range_index: u8,
    pub last_rc_data: u16,
}

impl RcContinuosAdjustmentState {
    /// Constructor: every field zero.
    pub fn new() -> (r: Self)
        ensures
            r == (RcContinuosAdjustmentState { adjustment_range_index: 0, last_rc_data: 0 }),
    {
        Self { adjustment_range_index: 0, last_rc_data: 0 }
    }
}

impl Default for RcContinuosAdjustmentState {
    fn default() -> (r: Self)
        ensures
            r == (RcContinuosAdjustmentState { adjustment_range_index: 0, last_rc_data: 0 }),
    {
        Self::new()
    }
}

/// Adjustment data.
#[derive(Clone, Copy, Debug, PartialEq, Eq, Structural)]
pub struct RcAdjustmentData {
    pub step: u8,
    pub switch_positions: u8,
}

impl RcAdjustmentData {
    /// Constructor: every field zero.
    pub fn new() -> (r: Self)
        ensures
            r == (RcAdjustmentData { step: 0, switch_positions: 0 }),
    {
        Self { step: 0, switch_positions: 0 }
    }
}

impl Default for RcAdjustmentData {
    fn default() -> (r: Self)
        ensures
            r == (RcAdjustmentData { step: 0, switch_positions: 0 }),
    {
        Self::new()
    }
}

/// Adjustment configuration.
#[derive(Clone, Copy, Debug, PartialEq, Eq, Structural)]
pub struct RcAdjustmentConfig {
    pub adjustment: u8,
    pub adjustment_mode: u8,
    pub data: u8,
}

impl RcAdjustmentConfig {
    /// Constructor: every field zero.
    pub fn new() -> (r: Self)
        ensures
            r == (RcAdjustmentConfig { adjustment: 0, adjustment_mode: 0, data: 0 }),
    {
        Self { adjustment: 0, adjustment_mode: 0, data: 0 }
    }
}

impl Default for RcAdjustmentConfig {
    fn default() -> (r: Self)
        ensures
            r == (RcAdjustmentConfig { adjustment: 0, adjustment_mode: 0, data: 0 }),
    {
        Self::new()
    }
}

} // verus!
