//! RX channel constants, channel arrays and PWM step ranges.
use vstd::prelude::*;

verus! {

/// RX channel constants.
#[derive(Clone, Copy, Debug, PartialEq, Eq)]
pub struct RxChannel {}

impl RxChannel {
    // AETR (ailerons, elevators, throttle, rudder) ordering.
    pub const ROLL: usize = 0;
    pub const PITCH: usize = 1;
    pub const THROTTLE: usize = 2;
    pub const YAW: usize = 3;
    pub const AUX1: usize = 4;
    pub const AUX2: usize = 5;
    pub const AUX3: usize = 6;
    pub const AUX4: usize = 7;
    pub const AUX5: usize = 8;
    pub const AUX6: usize = 9;
    pub const AUX7: usize = 10;
    pub const AUX8: usize = 11;
    pub const AUX9: usize = 12;
    pub const AUX10: usize = 13;
    pub const AUX11: usize = 14;
    pub const AUX12: usize = 15;
    pub const AUX13: usize = 16;
    pub const AUX14: usize = 17;
    pub const AUX15: usize = 18;
    pub const AUX16: usize = 19;

    pub const ROLL_U8: u8 = 0;
    pub const PITCH_U8: u8 = 1;
    pub const THROTTLE_U8: u8 = 2;
    pub const YAW_U8: u8 = 3;
    pub const AUX1_U8: u8 = 4;
    pub const AUX2_U8: u8 = 5;
    pub const AUX3_U8: u8 = 6;
    pub const AUX4_U8: u8 = 7;
    pub const AUX5_U8: u8 = 8;
    pub const AUX6_U8: u8 = 9;
    pub const AUX7_U8: u8 = 10;
    pub const AUX8_U8: u8 = 11;
    pub const AUX9_U8: u8 = 12;
    pub const AUX10_U8: u8 = 13;
    pub const AUX11_U8: u8 = 14;
    pub const AUX12_U8: u8 = 15;
    pub const AUX13_U8: u8 = 16;
    pub const AUX14_U8: u8 = 17;
    pub const AUX15_U8: u8 = 18;
    pub const AUX16_U8: u8 = 19;

    // PWM values. Normal range is [1000, 2000].
    pub const MIN: u16 = 900;
    pub const LOW: u16 = 1000;
    pub const MID_LOW: u16 = 1250;
    pub const MID: u16 = 1500;
    pub const MID_HIGH: u16 = 1750;
    pub const HIGH: u16 = 2000;
    pub const MAX: u16 = 2100;
    pub const RANGE: u16 = 1000;

    /// Maps [1000, 2000] to [-1000, 1000].
    #[must_use]
    pub fn map_rpy_pwm_to_plus_minus_1000(pwm: u16) -> (r: i32)
        ensures
            r == 2 * pwm - 3000,
    {
        (pwm as i32) * 2 - 3000
    }

    /// Maps [1000, 2000] to [0, 1000].
    #[must_use]
    pub fn map_throttle_pwm_to_0_to_1000(pwm: u16) -> (r: i32)
        ensures
            r == pwm - 1000,
    {
        (pwm as i32) - 1000
    }
}


/// Value of a PWM pulse width clamped to `[lo, hi]`.
pub open spec fn clamp_spec(v: int, lo: int, hi: int) -> int {
    if v < lo {
        lo
    } else if v > hi {
        hi
    } else {
        v
    }
}

/// PWM channels are divided into "steps". Steps are 25 units wide.
/// There are 48 steps between 900 and 2100:
/// a step value of 0 corresponds to a channel value of 900 or less,
/// a step value of 48 corresponds to a channel value of 2100 or more.
///
/// Steps are used to convert channel values into "switches".
#[derive(Clone, Copy, Debug, PartialEq, Eq, Structural)]
pub struct RxChannelRange {
    pub start: u8,
    pub end: u8,
}

/// The step whose band contains `pwm`, after clamping `pwm` to `[900, 2100]`.
pub open spec fn pwm_to_step_spec(pwm: u16) -> u8 {
    ((clamp_spec(pwm as int, 900, 2100) - 900) / 25) as u8
}

/// The PWM value at the lower edge of step `step`.
pub open spec fn step_to_pwm_spec(step: u8) -> u16 {
    (900 + 25 * step) as u16
}

/// Whether `channel_value` lies in the half-open PWM band `[step start, step end)`.
pub open spec fn range_active_spec(channel_value: u16, start: u8, end: u8) -> bool {
    900 + 25 * start <= channel_value < 900 + 25 * end
}

impl Default for RxChannelRange {
    fn default() -> (r: Self)
        ensures
            r.start == 0 && r.end == 0,
    {
        Self::new()
    }
}

impl RxChannelRange {
    pub const MIN: u16 = 900;
    pub const MID: u16 = 1500;
    pub const MAX: u16 = 2100;

    pub const STEP: u16 = 25;
    pub const STEP_MIN: u16 = 0;
    pub const STEP_MID: u16 = 24;
    pub const STEP_MAX: u16 = 48;

    /// Constructor.
    #[must_use]
    pub fn new() -> (r: Self)
        ensures
            r.start == 0 && r.end == 0,
    {
        Self { start: 0, end: 0 }
    }

    /// Set the start of a newly constructed range.
    #[must_use]
    pub fn with_start(self, start: u8) -> (r: Self)
        ensures
            r.start == start && r.end == self.end,
    {
        let mut this = self;
        this.start = start;
        this
    }

    /// Set the end of a newly constructed range.
    #[must_use]
    pub fn with_end(self, end: u8) -> (r: Self)
        ensures
            r.start == self.start && r.end == end,
    {
        let mut this = self;
        this.end = end;
        this
    }

    /// Construct from PWM values; an end below the start is raised to the start.
    #[must_use]
    pub fn from_pwm(pwm_start: u16, pwm_end: u16) -> (r: Self)
        ensures
            r.start == pwm_to_step_spec(pwm_start),
            r.end == pwm_to_step_spec(if pwm_end >= pwm_start { pwm_end } else { pwm_start }),
    {
        Self { start: Self::pwm_to_step(pwm_start), end: Self::pwm_to_step(if pwm_end >= pwm_start { pwm_end } else { pwm_start }) }
    }

    #[must_use]
    pub fn step_to_pwm(step: u8) -> (r: u16)
        ensures
            r == step_to_pwm_spec(step),
            r == 900 + 25 * step,
    {
        Self::MIN + Self::STEP * (step as u16)
    }

    #[must_use]
    pub fn pwm_to_step(pwm: u16) -> (r: u8)
        ensures
            r == pwm_to_step_spec(pwm),
            r <= 48,
    {
        let clamped = if pwm < Self::MIN {
            Self::MIN
        } else if pwm > Self::MAX {
            Self::MAX
        } else {
            pwm
        };
        ((clamped - Self::MIN) / Self::STEP) as u8
    }

    /// Sets the range from PWM values; ignored unless `pwm_end > pwm_start`.
    pub fn set(&mut self, pwm_start: u16, pwm_end: u16)
        ensures
            pwm_end > pwm_start ==> final(self).start == pwm_to_step_spec(pwm_start)
                && final(self).end == pwm_to_step_spec(pwm_end),
            pwm_end <= pwm_start ==> *final(self) == *old(self),
    {
        if pwm_end > pwm_start {
            self.start = Self::pwm_to_step(pwm_start);
            self.end = Self::pwm_to_step(pwm_end);
        }
    }

    /// The PWM values at the edges of the range.
    #[must_use]
    pub fn pwm_range(&self) -> (r: (u16, u16))
        ensures
            r == (step_to_pwm_spec(self.start), step_to_pwm_spec(self.end)),
    {
        (Self::step_to_pwm(self.start), Self::step_to_pwm(self.end))
    }

    #[must_use]
    pub fn is_range_active(channel_value: u16, start: u8, end: u8) -> (r: bool)
        ensures
            r == range_active_spec(channel_value, start, end),
    {
        if channel_value >= Self::MIN + (start as u16) * Self::STEP && channel_value < Self::MIN
            + (end as u16) * Self::STEP {
            return true;
        }
        false
    }

    /// Whether the value of channel `aux_channel_index` (or `RxChannel::LOW` for an
    /// index past the last channel) lies in this range.
    #[must_use]
    pub fn is_active(&self, rx_channels: &RxChannels, aux_channel_index: u8) -> (r: bool)
        ensures
            r == range_active_spec(
                rx_channels.channel_spec(aux_channel_index),
                self.start,
                self.end,
            ),
            aux_channel_index < 16 ==> r == (900 + 25 * self.start <= rx_channels.0@[aux_channel_index as int]
                < 900 + 25 * self.end),
    {
        let index = aux_channel_index as usize;
        let channel_value = if index < RxChannels::CHANNEL_COUNT {
            rx_channels.0[index]
        } else {
            RxChannel::LOW
        };
        Self::is_range_active(channel_value, self.start, self.end)
    }
}

/// Array of RX channels.
#[derive(Clone, Copy, Debug, PartialEq, Eq)]
pub struct RxChannels(pub [u16; 16]);

/// Channel values used when the link is lost: sticks at mid, throttle and aux channels low.
pub open spec fn failsafe_channel_values() -> Seq<u16> {
    seq![1500u16, 1500, 1000, 1500, 1000, 1000, 1000, 1000, 1000, 1000, 1000, 1000, 1000, 1000, 1000, 1000]
}

impl RxChannels {
    pub const CHANNEL_COUNT: usize = 16;

    /// The channel values used when the link is lost.
    pub fn failsafe_channel_values() -> (r: [u16; 16])
        ensures
            r@ == failsafe_channel_values(),
    {
        let r = [
            RxChannel::MID,
            RxChannel::MID,
            RxChannel::LOW,
            RxChannel::MID,
            RxChannel::LOW,
            RxChannel::LOW,
            RxChannel::LOW,
            RxChannel::LOW,
            RxChannel::LOW,
            RxChannel::LOW,
            RxChannel::LOW,
            RxChannel::LOW,
            RxChannel::LOW,
            RxChannel::LOW,
            RxChannel::LOW,
            RxChannel::LOW,
        ];
        assert(r@ =~= failsafe_channel_values());
        r
    }

    /// Value of channel `channel_index`, or `RxChannel::LOW` for an index past the last channel.
    pub open spec fn channel_spec(&self, channel_index: u8) -> u16 {
        if channel_index < 16 {
            self.0@[channel_index as int]
        } else {
            1000
        }
    }

    /// Constructor: all channels at their failsafe values.
    #[must_use]
    pub fn new() -> (r: Self)
        ensures
            r.0@ == failsafe_channel_values(),
    {
        Self(Self::failsafe_channel_values())
    }

    #[must_use]
    pub fn from_channels(channels: [u16; 16]) -> (r: Self)
        ensures
            r.0 == channels,
    {
        Self(channels)
    }

    /// Returns value of channel, or `RxChannel::LOW` if channel index invalid.
    #[must_use]
    pub fn channel(&self, channel_index: u8) -> (r: u16)
        ensures
            r == self.channel_spec(channel_index),
            channel_index < 16 ==> r == self.0@[channel_index as int],
            channel_index >= 16 ==> r == 1000,
    {
        let index = channel_index as usize;
        if index < Self::CHANNEL_COUNT {
            return self.0[index];
        }
        RxChannel::LOW
    }

    #[must_use]
    pub fn channels(&self) -> (r: [u16; 16])
        ensures
            r == self.0,
    {
        self.0
    }

    pub fn set_channels_to_failsafe_values(&mut self)
        ensures
            final(self).0@ == failsafe_channel_values(),
    {
        self.0 = Self::failsafe_channel_values();
    }
}

impl core::ops::Index<usize> for RxChannels {
    type Output = u16;

    /// Access channel by index.
    fn index(&self, index: usize) -> (r: &u16)
        ensures
            *r == self.0@[index as int],
    {
        &self.0[index]
    }
}

impl vstd::std_specs::core::IndexSpecImpl<usize> for RxChannels {
    /// A channel index must be below 16.
    open spec fn index_req(&self, index: &usize) -> bool {
        *index < 16
    }
}

impl core::ops::Index<core::ops::Range<usize>> for RxChannels {
    type Output = [u16];

    /// Access a range of channels.
    fn index(&self, index: core::ops::Range<usize>) -> (r: &[u16])
        ensures
            r@ == self.0@.subrange(index.start as int, index.end as int),
    {
        &self.0[index]
    }
}

impl vstd::std_specs::core::IndexSpecImpl<core::ops::Range<usize>> for RxChannels {
    /// A range of channels must lie within the 16 channels.
    open spec fn index_req(&self, index: &core::ops::Range<usize>) -> bool {
        index.start <= index.end <= 16
    }
}

impl Default for RxChannels {
    fn default() -> (r: Self)
        ensures
            r.0@ == failsafe_channel_values(),
    {
        Self::new()
    }
}

/// Converting a step to its PWM edge and back gives the same step, for every step in `[0, 48]`.
pub proof fn lemma_step_pwm_roundtrip(step: u8)
    requires
        step <= 48,
    ensures
        pwm_to_step_spec(step_to_pwm_spec(step)) == step,
{
}

/// For a PWM value in `[900, 2100]`, the lower edge of its step is at most the value and
/// less than one step (25) below it.
pub proof fn lemma_pwm_step_band(pwm: u16)
    requires
        900 <= pwm <= 2100,
    ensures
        step_to_pwm_spec(pwm_to_step_spec(pwm)) <= pwm < step_to_pwm_spec(pwm_to_step_spec(pwm)) + 25,
{
}

/// `pwm_to_step` is monotonic: a larger PWM value never maps to a smaller step.
pub proof fn lemma_pwm_to_step_monotonic(a: u16, b: u16)
    requires
        a <= b,
    ensures
        pwm_to_step_spec(a) <= pwm_to_step_spec(b),
{
}

} // verus!
