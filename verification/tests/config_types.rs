use rc_receiver::failsafe::{FailsafeConfig, FailsafeProcedure, FailsafeSwitchMode};
use rc_receiver::rates::{RatesConfig, RatesType, ThrottleLimitType};
use rc_receiver::rc_adjustments::{
    RcAdjustmentConfig, RcAdjustmentData, RcAdjustmentMode, RcAdjustmentRange, RcContinuosAdjustmentState,
    RcTimedAdjustmentState,
};
use rc_receiver::rc_controls_config;
use rc_receiver::rc_controls;
use rc_receiver::rx_config::RxConfig;

fn is_full<T: Sized + Send + Sync + Unpin + Copy + Clone + Default + PartialEq>() {}
fn is_full_eq<T: Sized + Send + Sync + Unpin + Copy + Clone + Default + Eq + PartialEq>() {}

#[test]
fn failsafe_normal_types() {
    is_full_eq::<FailsafeSwitchMode>();
    is_full_eq::<FailsafeProcedure>();
    is_full::<FailsafeConfig>();
}

#[test]
fn failsafe_test_new() {
    let failsafe = FailsafeConfig::new();

    assert_eq!(failsafe.throttle_pwm, 1000); // throttle off
    assert_eq!(failsafe.throttle_low_delay_deciseconds, 100);
    assert_eq!(failsafe.recovery_delay_deciseconds, 5);
    assert_eq!(failsafe.delay_deciseconds, 15);
    assert_eq!(failsafe.landing_time_seconds, 60);
    assert_eq!(failsafe.procedure, FailsafeProcedure::DropIt);
    assert_eq!(failsafe.switch_mode, FailsafeSwitchMode::Stage1);
    assert_eq!(failsafe.stick_threshold_percent, 30);
}

#[test]
fn failsafe_codes_round_trip() {
    for code in 0u8..=2 {
        let procedure = FailsafeProcedure::try_from(code).unwrap();
        assert_eq!(procedure, FailsafeProcedure::from_u8(code));
    }
    assert_eq!(FailsafeProcedure::from_u8(1), FailsafeProcedure::AutoLanding);
    assert_eq!(FailsafeProcedure::from_u8(9), FailsafeProcedure::DropIt);
    assert!(FailsafeProcedure::try_from(3u8).is_err());
    assert!(FailsafeSwitchMode::try_from(3u8).is_err());
    assert_eq!(FailsafeSwitchMode::try_from(2u8).unwrap(), FailsafeSwitchMode::Kill);
    assert_eq!(FailsafeSwitchMode::from_u8(7), FailsafeSwitchMode::Stage1);
}

#[test]
fn rates_new() {
    let rates = RatesConfig::new();

    assert_eq!([1998, 1998, 1998], rates.limits);
    assert_eq!([7, 7, 7], rates.rc_rates);
    assert_eq!([0, 0, 0], rates.rc_expos);
    assert_eq!([67, 67, 67], rates.rates);
    assert_eq!(50, rates.throttle_midpoint);
    assert_eq!(0, rates.throttle_expo);
    assert_eq!(ThrottleLimitType::Off, rates.throttle_limit_type);
    assert_eq!(100, rates.throttle_limit_percent);
}

#[test]
fn rates_type_codes() {
    assert_eq!(RatesType::from_u8(0), RatesType::Betaflight);
    assert_eq!(RatesType::from_u8(200), RatesType::Actual);
    assert!(RatesType::try_from_u8(200).is_none());
    assert_eq!(ThrottleLimitType::try_from_u8(1), Some(ThrottleLimitType::Scale));
}

#[test]
fn rc_adjustments_normal_types() {
    is_full::<RcAdjustmentRange>();
    is_full::<RcAdjustmentMode>();
    is_full::<RcTimedAdjustmentState>();
    is_full::<RcContinuosAdjustmentState>();
    is_full::<RcAdjustmentData>();
    is_full::<RcAdjustmentRange>();
}

#[test]
fn rc_adjustments_test_new() {
    let config = RcAdjustmentConfig::new();
    assert_eq!(0, config.adjustment);
}

#[test]
fn rc_controls_normal_types() {
    is_full::<rc_controls::RcControlsConfig>();
}

#[test]
fn rc_controls_test_new() {
    let config = rc_controls::RcControlsConfig::new();
    assert_eq!(0, config.deadband);
}

#[test]
fn rc_controls_config_normal_types() {
    is_full::<rc_controls_config::RcControlsConfig>();
}

#[test]
fn rc_controls_config_test_new() {
    let config = rc_controls_config::RcControlsConfig::new();
    assert_eq!(0, config.deadband);
}

#[test]
fn rx_config_normal_types() {
    is_full::<RxConfig>();
}

#[test]
fn rx_config_test_new() {
    let config = RxConfig::new();
    assert_eq!(0, config.serial_rx_provider);
}
