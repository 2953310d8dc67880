//! Failsafe configuration.
use vstd::prelude::*;
use vstd::std_specs::convert::TryFromSpecImpl;

verus! {

/// Configuration of failsafe behavior.
#[derive(Clone, Copy, Debug, PartialEq, Eq, Structural)]
pub struct FailsafeConfig {
    pub throttle_pwm: u16,
    pub throttle_low_delay_deciseconds: u16,
    pub recovery_delay_deciseconds: u16,  // time of valid rx data needed to allow recovery from failsafe and re-arming
    pub delay_deciseconds: u8,
    pub landing_time_seconds: u8,  // time allowed in landing phase before disarm
    pub procedure: FailsafeProcedure,
    pub switch_mode: FailsafeSwitchMode,
    pub stick_threshold_percent: u8,  // stick deflection percentage to exit GPS Rescue procedure
}

impl FailsafeConfig {
    pub const DISARMED: u8 = 0;
    pub const IDLE: u8 = 1;
    pub const RX_LOSS_DETECTED: u8 = 2;
    pub const RX_LOSS_MONITORING: u8 = 3;
    pub const RX_LOSS_RECOVERED: u8 = 4;
    pub const LANDING: u8 = 5;
    pub const LANDED: u8 = 6;
    pub const GPS_RESCUE: u8 = 7;

    /// The default configuration.
    pub open spec fn default_spec() -> Self {
        FailsafeConfig {
            throttle_pwm: 1000,
            throttle_low_delay_deciseconds: 100,
            recovery_delay_deciseconds: 5,
            delay_deciseconds: 15,
            landing_time_seconds: 60,
            procedure: FailsafeProcedure::DropIt,
            switch_mode: FailsafeSwitchMode::Stage1,
            stick_threshold_percent: 30,
        }
    }

    /// Constructor.
    #[must_use]
    pub fn new() -> (r: Self)
        ensures
            r == Self::default_spec(),
    {
        Self {
            throttle_pwm: 1000,  // throttle off
            throttle_low_delay_deciseconds: 100,
            recovery_delay_deciseconds: 5,
            delay_deciseconds: 15,
            landing_time_seconds: 60,
            procedure: FailsafeProcedure::DropIt,
            switch_mode: FailsafeSwitchMode::Stage1,
            stick_threshold_percent: 30,
        }
    }
}

impl Default for FailsafeConfig {
    fn default() -> (r: Self)
        ensures
            r == Self::default_spec(),
    {
        Self::new()
    }
}

/// What to do on loss of the radio link.
#[derive(Clone, Copy, Debug, Eq, PartialEq, Structural)]
pub enum FailsafeProcedure {
    DropIt,
    AutoLanding,
    GpsRescue,
}

/// The numeric code of each procedure.
pub open spec fn procedure_code(p: FailsafeProcedure) -> u8 {
    match p {
        FailsafeProcedure::DropIt => 0,
        FailsafeProcedure::AutoLanding => 1,
        FailsafeProcedure::GpsRescue => 2,
    }
}

/// The procedure with code `value`, if any.
pub open spec fn procedure_of_code(value: u8) -> Option<FailsafeProcedure> {
    if value == 0 {
        Some(FailsafeProcedure::DropIt)
    } else if value == 1 {
        Some(FailsafeProcedure::AutoLanding)
    } else if value == 2 {
        Some(FailsafeProcedure::GpsRescue)
    } else {
        None
    }
}

impl Default for FailsafeProcedure {
    fn default() -> (r: Self)
        ensures
            r == FailsafeProcedure::DropIt,
    {
        FailsafeProcedure::DropIt
    }
}

impl FailsafeProcedure {
    /// Forgiving conversion: invalid values map to the default, `DropIt`.
    #[must_use]
    pub fn from_u8(value: u8) -> (r: Self)
        ensures
            r == match procedure_of_code(value) {
                Some(p) => p,
                None => FailsafeProcedure::DropIt,
            },
    {
        match value {
            0 => Self::DropIt,
            1 => Self::AutoLanding,
            2 => Self::GpsRescue,
            _ => Self::default(),
        }
    }
}

impl TryFrom<u8> for FailsafeProcedure {
    type Error = ();

    /// Validating conversion, invalid values return error.
    fn try_from(value: u8) -> (r: Result<Self, Self::Error>)
        ensures
            r == match procedure_of_code(value) {
                Some(p) => Ok(p),
                None => Err(()),
            },
    {
        let default = Self::default();
        if value == 0 {
            // The input was actually the default value.
            Ok(default)
        } else {
            let ret = Self::from_u8(value);
            if ret == default {
                // The input was invalid and got converted to the default.
                Err(())
            } else {
                Ok(ret)
            }
        }
    }
}

impl TryFromSpecImpl<u8> for FailsafeProcedure {
    open spec fn obeys_try_from_spec() -> bool {
        true
    }

    open spec fn try_from_spec(value: u8) -> Result<Self, ()> {
        match procedure_of_code(value) {
            Some(p) => Ok(p),
            None => Err(()),
        }
    }
}

/// Failsafe switch behavior.
#[derive(Clone, Copy, Debug, Eq, PartialEq, Structural)]
pub enum FailsafeSwitchMode {
    Stage1,
    Stage2,
    Kill,
}

/// The numeric code of each switch mode.
pub open spec fn switch_mode_code(m: FailsafeSwitchMode) -> u8 {
    match m {
        FailsafeSwitchMode::Stage1 => 0,
        FailsafeSwitchMode::Stage2 => 1,
        FailsafeSwitchMode::Kill => 2,
    }
}

/// The switch mode with code `value`, if any.
pub open spec fn switch_mode_of_code(value: u8) -> Option<FailsafeSwitchMode> {
    if value == 0 {
        Some(FailsafeSwitchMode::Stage1)
    } else if value == 1 {
        Some(FailsafeSwitchMode::Stage2)
    } else if value == 2 {
        Some(FailsafeSwitchMode::Kill)
    } else {
        None
    }
}

impl Default for FailsafeSwitchMode {
    fn default() -> (r: Self)
        ensures
            r == FailsafeSwitchMode::Stage1,
    {
        FailsafeSwitchMode::Stage1
    }
}

impl FailsafeSwitchMode {
    /// Forgiving conversion: invalid values map to the default, `Stage1`.
    #[must_use]
    pub fn from_u8(value: u8) -> (r: Self)
        ensures
            r == match switch_mode_of_code(value) {
                Some(m) => m,
                None => FailsafeSwitchMode::Stage1,
            },
    {
        match value {
            0 => Self::Stage1,
            1 => Self::Stage2,
            2 => Self::Kill,
            _ => Self::default(),
        }
    }
}

impl TryFrom<u8> for FailsafeSwitchMode {
    type Error = ();

    /// Validating conversion, invalid values return error.
    fn try_from(value: u8) -> (r: Result<Self, Self::Error>)
        ensures
            r == match switch_mode_of_code(value) {
                Some(m) => Ok(m),
                None => Err(()),
            },
    {
        let default = Self::default();
        if value == 0 {
            // The input was actually the default value.
            Ok(default)
        } else {
            let ret = Self::from_u8(value);
            if ret == default {
                // The input was invalid and got converted to the default.
                Err(())
            } else {
                Ok(ret)
            }
        }
    }
}

impl TryFromSpecImpl<u8> for FailsafeSwitchMode {
    open spec fn obeys_try_from_spec() -> bool {
        true
    }

    open spec fn try_from_spec(value: u8) -> Result<Self, ()> {
        match switch_mode_of_code(value) {
            Some(m) => Ok(m),
            None => Err(()),
        }
    }
}

/// Converting a procedure to its code and back gives the same procedure.
pub proof fn lemma_procedure_code_roundtrip(p: FailsafeProcedure)
    ensures
        procedure_of_code(procedure_code(p)) == Some(p),
{
}

/// Converting a switch mode to its code and back gives the same switch mode.
pub proof fn lemma_switch_mode_code_roundtrip(m: FailsafeSwitchMode)
    ensures
        switch_mode_of_code(switch_mode_code(m)) == Some(m),
{
}

} // verus!
