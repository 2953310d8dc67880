//! Radio-control receiver library: protocol decoders (SBUS, iBUS, CRSF), channel
//! ranges, mode activation conditions and configuration types for a flight controller.
pub mod controls;
pub mod mock_uart;
pub mod failsafe;
pub mod protocols;
pub mod rates;
pub mod rc_adjustments;
pub mod rc_controls;
pub mod rc_controls_config;

pub mod rc_mode;
pub mod rc_modes;
pub mod rx_channel;
pub mod rx_config;
pub mod rx_frame;
pub mod rx_radio;
pub mod rx_receiver;
