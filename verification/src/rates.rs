//! Rates configuration: stick sensitivity settings and throttle limiting.
use vstd::prelude::*;

verus! {

/// Configuration data for Rates.
#[derive(Clone, Copy, Debug, PartialEq)]
pub struct RatesConfig {
    pub limits: [u16; 3],
    pub rc_rates: [u8; 3],
    pub rc_expos: [u8; 3],
    pub rates: [u8; 3],
    pub throttle_midpoint: u8,
    pub throttle_expo: u8,
    pub throttle_limit_type: ThrottleLimitType,
    pub throttle_limit_percent: u8,  // Sets the maximum pilot commanded throttle limit
}

/// The default rates configuration.
pub open spec fn is_default_rates_config(r: RatesConfig) -> bool {
    &&& r.limits@ == seq![1998u16, 1998, 1998]
    &&& r.rc_rates@ == seq![7u8, 7, 7]
    &&& r.rc_expos@ == seq![0u8, 0, 0]
    &&& r.rates@ == seq![67u8, 67, 67]
    &&& r.throttle_midpoint == 50
    &&& r.throttle_expo == 0
    &&& r.throttle_limit_type == ThrottleLimitType::Off
    &&& r.throttle_limit_percent == 100
}

impl Default for RatesConfig {
    fn default() -> (r: Self)
        ensures
            is_default_rates_config(r),
    {
        Self::new()
    }
}

impl RatesConfig {
    pub const AXIS_COUNT: usize = 3;

    pub const LIMIT_MAX: u16 = 1998;
    pub const RC_RATES_MAX: u8 = 255;
    pub const RC_EXPOS_MAX: u8 = 100;
    pub const THROTTLE_MAX: u8 = 100;

    /// Constructor.
    #[must_use]
    pub fn new() -> (r: Self)
        ensures
            is_default_rates_config(r),
    {
        let r = Self {
            limits: [Self::LIMIT_MAX, Self::LIMIT_MAX, Self::LIMIT_MAX],
            rc_rates: [7, 7, 7],
            rc_expos: [0, 0, 0],
            rates: [67, 67, 67],
            throttle_midpoint: 50,
            throttle_expo: 0,
            throttle_limit_type: ThrottleLimitType::Off,
            throttle_limit_percent: 100,
        };
        assert(r.limits@ =~= seq![1998u16, 1998, 1998]);
        assert(r.rc_rates@ =~= seq![7u8, 7, 7]);
        assert(r.rc_expos@ =~= seq![0u8, 0, 0]);
        assert(r.rates@ =~= seq![67u8, 67, 67]);
        r
    }
}

/// How the pilot-commanded throttle is limited.
#[derive(Clone, Copy, Debug, PartialEq, Eq, Structural)]
pub enum ThrottleLimitType {
    Off,
    Scale,
    Clip,
}

/// The throttle limit type with code `value`, if any.
pub open spec fn throttle_limit_type_of_code(value: u8) -> Option<ThrottleLimitType> {
    if value == 0 {
        Some(ThrottleLimitType::Off)
    } else if value == 1 {
        Some(ThrottleLimitType::Scale)
    } else if value == 2 {
        Some(ThrottleLimitType::Clip)
    } else {
        None
    }
}

impl Default for ThrottleLimitType {
    fn default() -> (r: Self)
        ensures
            r == ThrottleLimitType::Off,
    {
        ThrottleLimitType::Off
    }
}

impl ThrottleLimitType {
    /// Forgiving conversion: invalid values map to the default, `Off`.
    #[must_use]
    pub fn from_u8(value: u8) -> (r: Self)
        ensures
            r == match throttle_limit_type_of_code(value) {
                Some(t) => t,
                None => ThrottleLimitType::Off,
            },
    {
        match value {
            0 => Self::Off,
            1 => Self::Scale,
            2 => Self::Clip,
            _ => Self::default(),
        }
    }

    /// Validating conversion: `None` for invalid values.
    #[must_use]
    pub fn try_from_u8(value: u8) -> (r: Option<Self>)
        ensures
            r == throttle_limit_type_of_code(value),
    {
        match value {
            0 => Some(Self::Off),
            1 => Some(Self::Scale),
            2 => Some(Self::Clip),
            _ => None,
        }
    }
}

/// Rates model.
#[derive(Clone, Copy, Debug, PartialEq, Eq, Structural)]
pub enum RatesType {
    Betaflight,
    Raceflight,
    Kiss,
    Actual,
    Quick,
}

/// The rates type with code `value`, if any.
pub open spec fn rates_type_of_code(value: u8) -> Option<RatesType> {
    if value == 0 {
        Some(RatesType::Betaflight)
    } else if value == 1 {
        Some(RatesType::Raceflight)
    } else if value == 2 {
        Some(RatesType::Kiss)
    } else if value == 3 {
        Some(RatesType::Actual)
    } else if value == 4 {
        Some(RatesType::Quick)
    } else {
        None
    }
}

impl Default for RatesType {
    fn default() -> (r: Self)
        ensures
            r == RatesType::Actual,
    {
        RatesType::Actual
    }
}

impl RatesType {
    /// Forgiving conversion: invalid values map to the default, `Actual`.
    #[must_use]
    pub fn from_u8(value: u8) -> (r: Self)
        ensures
            r == match rates_type_of_code(value) {
                Some(t) => t,
                None => RatesType::Actual,
            },
    {
        match value {
            0 => Self::Betaflight,
            1 => Self::Raceflight,
            2 => Self::Kiss,
            3 => Self::Actual,
            4 => Self::Quick,
            _ => Self::default(),
        }
    }

    /// Validating conversion: `None` for invalid values.
    #[must_use]
    pub fn try_from_u8(value: u8) -> (r: Option<Self>)
        ensures
            r == rates_type_of_code(value),
    {
        match value {
            0 => Some(Self::Betaflight),
            1 => Some(Self::Raceflight),
            2 => Some(Self::Kiss),
            3 => Some(Self::Actual),
            4 => Some(Self::Quick),
            _ => None,
        }
    }
}

/// The forgiving conversion agrees with the validating one wherever the latter succeeds.
pub proof fn lemma_rates_type_from_u8_agrees(value: u8)
    ensures
        rates_type_of_code(value) is Some ==> rates_type_of_code(value) == Some(
            match rates_type_of_code(value) {
                Some(t) => t,
                None => RatesType::Actual,
            },
        ),
        rates_type_of_code(value) is Some <==> value < 5,
        throttle_limit_type_of_code(value) is Some <==> value < 3,
{
}

} // verus!
