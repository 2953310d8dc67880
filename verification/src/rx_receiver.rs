//! The receiver frame shared by the protocol decoders: channels, link status and RSSI.
use vstd::prelude::*;

verus! {

/// 48-bit extended unique identifier (often synonymous with MAC address).
#[derive(Clone, Copy, Debug, PartialEq, Eq)]
pub struct Eui48 {
    pub octets: [u8; 6],
}

impl Default for Eui48 {
    fn default() -> (r: Self)
        ensures
            forall|i: int| 0 <= i < 6 ==> r.octets@[i] == 0,
    {
        Eui48 { octets: [0u8; 6] }
    }
}

impl Eui48 {
    /// All-zero identifier.
    pub fn new() -> (r: Self)
        ensures
            forall|i: int| 0 <= i < 6 ==> r.octets@[i] == 0,
    {
        Self::default()
    }
}

/// Properties common to all RX receivers.
#[derive(Clone, Copy, Debug, PartialEq, Eq, Structural)]
pub struct RxReceiverCommon {
    pub packet_received: bool,  // may be invalid packet
    pub new_packet_available: bool,
    pub positive_half_throttle: bool,
    pub packet_count: i32,
    pub dropped_packet_count_delta: i32,
    pub dropped_packet_count: i32,
    pub dropped_packet_count_previous: i32,
    pub tick_count_delta: i32,
}

impl Default for RxReceiverCommon {
    fn default() -> (r: Self)
        ensures
            r == RxReceiverCommon::new_spec(),
    {
        Self::new()
    }
}

impl RxReceiverCommon {
    /// All flags false and all counts zero.
    pub open spec fn new_spec() -> Self {
        Self {
            packet_received: false,
            new_packet_available: false,
            positive_half_throttle: false,
            packet_count: 0,
            dropped_packet_count_delta: 0,
            dropped_packet_count: 0,
            dropped_packet_count_previous: 0,
            tick_count_delta: 0,
        }
    }

    /// Constructor: all flags false and all counts zero.
    pub fn new() -> (r: Self)
        ensures
            r == Self::new_spec(),
    {
        Self {
            packet_received: false,
            new_packet_available: false,
            positive_half_throttle: false,
            packet_count: 0,
            dropped_packet_count_delta: 0,
            dropped_packet_count: 0,
            dropped_packet_count_previous: 0,
            tick_count_delta: 0,
        }
    }
}

/// Status of radio link.
#[derive(Debug, Clone, Copy, PartialEq, Eq, Structural)]
pub enum RxLinkStatus {
    Okay,
    Failsafe,
    NoSignal,
}

impl Default for RxLinkStatus {
    fn default() -> (r: Self)
        ensures
            r == RxLinkStatus::Okay,
    {
        Self::Okay
    }
}

impl RxLinkStatus {
    /// The default status, `Okay`.
    pub fn new() -> (r: Self)
        ensures
            r == RxLinkStatus::Okay,
    {
        Self::Okay
    }
}

/// RX channel constants.
#[derive(Debug, Clone, Copy, PartialEq, Eq)]
pub struct RxChannel {}

impl RxChannel {
    pub const ROLL: usize = 0;
    pub const PITCH: usize = 1;
    pub const THROTTLE: usize = 2;
    pub const YAW: usize = 3;
    pub const AUX1: usize = 4;
    pub const AUX2: usize = 5;
    pub const AUX3: usize = 6;
    pub const AUX4: usize = 7;
    pub const AUX5: usize = 8;
    pub const AUX6: usize = 9;
    pub const AUX7: usize = 10;
    pub const AUX8: usize = 11;
    pub const AUX9: usize = 12;
    pub const AUX10: usize = 13;
    pub const AUX11: usize = 14;
    pub const AUX12: usize = 15;
    pub const AUX13: usize = 16;
    pub const AUX14: usize = 17;
    pub const AUX15: usize = 18;
    pub const AUX16: usize = 19;

    // PWM ranges
    pub const LOW: u16 = 1000;
    pub const HIGH: u16 = 2000;
    pub const MID: u16 = 1500;
    pub const RANGE: u16 = 1000;
}

/// Receiver frame containing array of rx channel values, link status and RSSI.
#[derive(Debug, Clone, Copy, PartialEq, Eq)]
pub struct RxFrame {
    /// The channels in PWM range, nominally `[1000,2000]`.
    pub channels: [u16; 16],
    pub status: RxLinkStatus,
    pub rssi: u8,
}

/// The channel values of a new frame: sticks at mid, throttle and aux channels low.
pub open spec fn initial_channel_values() -> Seq<u16> {
    seq![1500u16, 1500, 1000, 1500, 1000, 1000, 1000, 1000, 1000, 1000, 1000, 1000, 1000, 1000, 1000, 1000]
}

impl RxFrame {
    // SBUS has 18 channels (the last two are digital channels with the two values 1000 or 2000),
    // but we only use 16. IBUS has 14 channels. CRSF has 16 channels.
    pub const MAX_CHANNEL_COUNT: usize = 16;
    pub const DEFAULT_CHANNEL_VALUE: u16 = 1000;

    /// Constructor: sticks at mid, throttle and aux channels low, status `Okay`, RSSI 0.
    pub fn new() -> (r: Self)
        ensures
            r.channels@ == initial_channel_values(),
            r.status == RxLinkStatus::Okay,
            r.rssi == 0,
    {
        let r = Self {
            channels: [
                RxChannel::MID,
                RxChannel::MID,
                RxChannel::LOW,
                RxChannel::MID,
                RxChannel::LOW,
                RxChannel::LOW,
                RxChannel::LOW,
                RxChannel::LOW,
                RxChannel::LOW,
                RxChannel::LOW,
                RxChannel::LOW,
                RxChannel::LOW,
                RxChannel::LOW,
                RxChannel::LOW,
                RxChannel::LOW,
                RxChannel::LOW,
            ],
            status: RxLinkStatus::new(),
            rssi: 0,
        };
        assert(r.channels@ =~= initial_channel_values());
        r
    }

    /// Returns true if the frame is safe to use for flight control.
    pub fn is_valid(&self) -> (r: bool)
        ensures
            r == (self.status == RxLinkStatus::Okay),
    {
        self.status == RxLinkStatus::Okay
    }

    /// Returns value of auxiliary channel, or `RxChannel::LOW` if channel index invalid:
    /// the auxiliary channels are `RxChannel::AUX1` (4) up to the last channel (15).
    pub fn auxiliary_channel(&self, channel_index: u8) -> (r: u16)
        ensures
            r == if 4 <= channel_index < 16 {
                self.channels@[channel_index as int]
            } else {
                1000
            },
    {
        let index = channel_index as usize;
        if index < Self::MAX_CHANNEL_COUNT && index >= RxChannel::AUX1 {
            return self.channels[index];
        }
        RxChannel::LOW
    }
}

impl Default for RxFrame {
    fn default() -> (r: Self)
        ensures
            r.channels@ == initial_channel_values(),
            r.status == RxLinkStatus::Okay,
            r.rssi == 0,
    {
        Self::new()
    }
}

/// The common interface for all RC receivers driven from a serial interrupt handler.
pub trait RxReceiver {
    /// The frame format of the receiver; every frame converts to an `RxFrame`.
    type Frame: Into<RxFrame>;

    fn is_data_available(&self) -> bool;

    fn on_data_received_from_isr(&mut self, data: u8) -> bool;

    fn read_byte(&mut self) -> u8;

    fn channel_pwm(&self, channel_index: u8) -> u16;
}

} // verus!
