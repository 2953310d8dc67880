//! The common interface of the radios, and a radio of any supported protocol.
use vstd::prelude::*;
use crate::protocols::crsf_radio::{CrsfRadio, crsf_radio_is_new, crsf_radio_receives};
use crate::protocols::ibus_radio::{IbusRadio, ibus_radio_is_new, ibus_radio_receives};
use crate::protocols::sbus_radio::{SbusRadio, sbus_radio_is_new, sbus_radio_receives};
use crate::rx_config::RadioType;
use crate::rx_receiver::RxFrame;

verus! {

/// The common interface for all RC radios.
pub trait RxRadio {
    /// Feeds one byte received from the radio; returns true when it completes a frame.
    fn on_byte_received(&mut self, byte: u8) -> bool;

    /// The last frame received.
    fn rx_frame(&self) -> RxFrame;
}

/// A radio of one of the supported protocols.
#[derive(Clone, Copy, Debug, PartialEq)]
pub enum Radio {
    Crsf(CrsfRadio),
    Ibus(IbusRadio),
    Sbus(SbusRadio),
}

impl Radio {
    /// A new radio of the given type.
    #[must_use]
    pub fn new(radio_type: RadioType) -> (r: Radio)
        ensures
            match radio_type {
                RadioType::Crsf => r matches Radio::Crsf(x) && crsf_radio_is_new(x),
                RadioType::Ibus => r matches Radio::Ibus(x) && ibus_radio_is_new(x),
                RadioType::Sbus => r matches Radio::Sbus(x) && sbus_radio_is_new(x),
            },
    {
        match radio_type {
            RadioType::Crsf => Self::Crsf(CrsfRadio::new()),
            RadioType::Ibus => Self::Ibus(IbusRadio::new()),
            RadioType::Sbus => Self::Sbus(SbusRadio::new()),
        }
    }
}

impl RxRadio for Radio {
    /// Feeds the byte to the radio of the selected protocol, which stays selected.
    fn on_byte_received(&mut self, byte: u8) -> (r: bool)
        ensures
            match (*old(self), *final(self)) {
                (Radio::Crsf(a), Radio::Crsf(b)) => crsf_radio_receives(a, byte, b, r),
                (Radio::Ibus(a), Radio::Ibus(b)) => ibus_radio_receives(a, byte, b, r),
                (Radio::Sbus(a), Radio::Sbus(b)) => sbus_radio_receives(a, byte, b, r),
                _ => false,
            },
    {
        match self {
            Radio::Crsf(radio) => radio.on_byte_received(byte),
            Radio::Ibus(radio) => radio.on_byte_received(byte),
            Radio::Sbus(radio) => radio.on_byte_received(byte),
        }
    }

    /// The last frame of the radio of the selected protocol.
    fn rx_frame(&self) -> (r: RxFrame)
        ensures
            r == match *self {
                Radio::Crsf(a) => a.last_frame(),
                Radio::Ibus(a) => a.last_frame(),
                Radio::Sbus(a) => a.last_frame(),
            },
    {
        match self {
            Radio::Crsf(radio) => radio.rx_frame(),
            Radio::Ibus(radio) => radio.rx_frame(),
            Radio::Sbus(radio) => radio.rx_frame(),
        }
    }
}

} // verus!
