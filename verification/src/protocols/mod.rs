//! Receiver protocols: frame decoders and radios.
pub mod crc_dvb_s2;
pub mod sbus_decoder;
pub mod sbus_frame;
pub mod ibus_decoder;
pub mod crsf_decoder;
pub mod crsf_radio;
pub mod ibus_radio;
pub mod sbus_radio;
pub mod ibus;
pub mod sbus;
pub mod sbus_parser;
pub mod crsf;
pub mod crsf_frame;
pub mod mock_radio;
pub mod receiver_serial;
pub mod receiver_crsf;
pub mod crsf_protocol;
pub mod protocol;
