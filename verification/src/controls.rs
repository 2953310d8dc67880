//! Control values from the receiver in the PWM range.
use vstd::prelude::*;
use crate::rx_channel::RxChannel;

verus! {

/// Controls values from receiver in the Pulse Width Modulation (PWM) range, nominally `[1000, 2000]`.
#[derive(Clone, Copy, Debug, PartialEq, Eq, Structural)]
pub struct RxControlsPwm {
    pub roll: u16,
    pub pitch: u16,
    pub yaw: u16,
    pub throttle: u16,
}

impl Default for RxControlsPwm {
    fn default() -> (r: Self)
        ensures
            r == (RxControlsPwm { roll: 1500, pitch: 1500, yaw: 1500, throttle: 1000 }),
    {
        Self::new()
    }
}

impl RxControlsPwm {
    /// Constructor: throttle low, roll, pitch and yaw centered.
    #[must_use]
    pub fn new() -> (r: Self)
        ensures
            r == (RxControlsPwm { roll: 1500, pitch: 1500, yaw: 1500, throttle: 1000 }),
    {
        Self { throttle: RxChannel::LOW, roll: RxChannel::MID, pitch: RxChannel::MID, yaw: RxChannel::MID }
    }

    // Coarse-grained values of pwm. Can be used to allow the radio to act like cursor keys
    // to navigate a menu system.
    #[must_use]
    pub fn pwm_is_high(pwm: u16) -> (r: bool)
        ensures
            r == (pwm >= 1750),
    {
        pwm >= 1750
    }

    #[must_use]
    pub fn pwm_is_low(pwm: u16) -> (r: bool)
        ensures
            r == (pwm <= 1250),
    {
        pwm <= 1250
    }

    #[must_use]
    pub fn pwm_is_mid(pwm: u16) -> (r: bool)
        ensures
            r == (1250 < pwm < 1750),
    {
        pwm > 1250 && pwm < 1750
    }
}

/// Every PWM value is exactly one of low, mid and high.
pub proof fn lemma_pwm_low_mid_high_partition(pwm: u16)
    ensures
        (pwm <= 1250) || (1250 < pwm < 1750) || (pwm >= 1750),
        !((pwm <= 1250) && (1250 < pwm < 1750)),
        !((pwm <= 1250) && (pwm >= 1750)),
        !((1250 < pwm < 1750) && (pwm >= 1750)),
{
}

} // verus!
