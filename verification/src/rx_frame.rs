//! Crossfire-compatible frame types, link status and channel frames.
use vstd::prelude::*;
use crate::rx_channel::failsafe_channel_values;

verus! {

/// Crossfire compatible frame types (see https://github.com/crsf-wg/crsf/wiki/Packet-Types).
#[derive(Clone, Copy, Debug, PartialEq, Eq, Structural)]
pub enum RxFrameType {
    Gps,
    VarioSensor,
    BatterySensor,
    BaroAltitude,
    Heartbeat,
    LinkStatistics,
    RcChannels,
    SubsetRcChannels,
    LinkStatisticsRx,
    LinkStatisticsTx,
    Attitude,
    FlightMode,
    // Extended Header Frames, range: 0x28 to 0x96
    DevicePing,
    DeviceInfo,
    ParameterSettingsEntry,
    ParameterRead,
    ParameterWrite,
    Command,
    // MSP commands
    MspReq,
    MspResp,
    MspWrite,
    DisplayportCmd,
    ArdupilotResp,
}

/// The CRSF frame type code of each frame type.
pub open spec fn frame_type_code(t: RxFrameType) -> u8 {
    match t {
        RxFrameType::Gps => 0x02,
        RxFrameType::VarioSensor => 0x07,
        RxFrameType::BatterySensor => 0x08,
        RxFrameType::BaroAltitude => 0x09,
        RxFrameType::Heartbeat => 0x0B,
        RxFrameType::LinkStatistics => 0x14,
        RxFrameType::RcChannels => 0x16,
        RxFrameType::SubsetRcChannels => 0x17,
        RxFrameType::LinkStatisticsRx => 0x1C,
        RxFrameType::LinkStatisticsTx => 0x1D,
        RxFrameType::Attitude => 0x1E,
        RxFrameType::FlightMode => 0x21,
        RxFrameType::DevicePing => 0x28,
        RxFrameType::DeviceInfo => 0x29,
        RxFrameType::ParameterSettingsEntry => 0x2B,
        RxFrameType::ParameterRead => 0x2C,
        RxFrameType::ParameterWrite => 0x2D,
        RxFrameType::Command => 0x32,
        RxFrameType::MspReq => 0x7A,
        RxFrameType::MspResp => 0x7B,
        RxFrameType::MspWrite => 0x7C,
        RxFrameType::DisplayportCmd => 0x7D,
        RxFrameType::ArdupilotResp => 0x80,
    }
}

impl Default for RxFrameType {
    fn default() -> (r: Self)
        ensures
            r == RxFrameType::Heartbeat,
    {
        RxFrameType::Heartbeat
    }
}

impl RxFrameType {
    /// Forgiving conversion: the frame type whose code is `value`, or the default
    /// (`Heartbeat`) for a value that is no frame type's code.
    #[must_use]
    pub fn from_u8(value: u8) -> (r: Self)
        ensures
            frame_type_code(r) == value || (r == RxFrameType::Heartbeat && forall|t: RxFrameType|
                #[trigger] frame_type_code(t) != value),
    {
        match value {
            0x02 => Self::Gps,
            0x07 => Self::VarioSensor,
            0x08 => Self::BatterySensor,
            0x09 => Self::BaroAltitude,
            0x0B => Self::Heartbeat,
            0x14 => Self::LinkStatistics,
            0x16 => Self::RcChannels,
            0x17 => Self::SubsetRcChannels,
            0x1C => Self::LinkStatisticsRx,
            0x1D => Self::LinkStatisticsTx,
            0x1E => Self::Attitude,
            0x21 => Self::FlightMode,
            0x28 => Self::DevicePing,
            0x29 => Self::DeviceInfo,
            0x2B => Self::ParameterSettingsEntry,
            0x2C => Self::ParameterRead,
            0x2D => Self::ParameterWrite,
            0x32 => Self::Command,
            0x7A => Self::MspReq,
            0x7B => Self::MspResp,
            0x7C => Self::MspWrite,
            0x7D => Self::DisplayportCmd,
            0x80 => Self::ArdupilotResp,
            _ => Self::default(),
        }
    }
}

/// Distinct frame types have distinct codes, so `from_u8` of a frame type's code gives
/// back that frame type.
pub proof fn lemma_frame_type_code_injective(a: RxFrameType, b: RxFrameType)
    requires
        frame_type_code(a) == frame_type_code(b),
    ensures
        a == b,
{
}

/// Status of radio link.
#[derive(Clone, Copy, Debug, PartialEq, Eq, Structural)]
pub enum RxLinkStatus {
    Okay,
    Failsafe,
    NoSignal,
}

impl Default for RxLinkStatus {
    fn default() -> (r: Self)
        ensures
            r == RxLinkStatus::Okay,
    {
        RxLinkStatus::Okay
    }
}

impl RxLinkStatus {
    /// Forgiving conversion: 0, 1, 2 to `Okay`, `Failsafe`, `NoSignal`; any other value to
    /// the default, `Okay`.
    #[must_use]
    pub fn from_u8(value: u8) -> (r: Self)
        ensures
            r == (if value == 1 {
                RxLinkStatus::Failsafe
            } else if value == 2 {
                RxLinkStatus::NoSignal
            } else {
                RxLinkStatus::Okay
            }),
    {
        match value {
            0 => Self::Okay,
            1 => Self::Failsafe,
            2 => Self::NoSignal,
            _ => Self::default(),
        }
    }
}

/// A frame received from the radio.
#[derive(Clone, Copy, Debug, PartialEq, Eq)]
pub enum RxFrame {
    ChannelsLink { channels_link: RxChannelsLinkStatus },
    LinkStatisticsTx {
        rssi_dbm: u8,
        rssi_percent: u8,
        link_quality: u8,  // LQ of 0 may used to indicate a disconnected status to the handset
        snr: i8,
    },
    Battery {
        voltage: u16,  // deci-volts
        current: u16,  // deci-amps
    },
    Heartbeat(),
    Unknown { frame_type: u8 },
}

/// Channel values together with the link status.
#[derive(Clone, Copy, Debug, PartialEq, Eq)]
pub struct RxChannelsLinkStatus {
    pub channels: [u16; 16],
    pub link_status: RxLinkStatus,
}

impl Default for RxChannelsLinkStatus {
    fn default() -> (r: Self)
        ensures
            r.channels@ == failsafe_channel_values(),
            r.link_status == RxLinkStatus::Okay,
    {
        Self::new()
    }
}

impl RxChannelsLinkStatus {
    // SBUS has 18 channels (the last two are digital channels with the two values 1000 or 2000),
    // but we only use 16. IBUS has 14 channels. CRSF has 16 channels.
    pub const CHANNEL_COUNT: usize = 16;
    pub const DEFAULT_CHANNEL_VALUE: u16 = 1000;

    /// Value of channel `channel_index`, or `RxChannel::LOW` for an index past the last channel.
    pub open spec fn channel_spec(&self, channel_index: u8) -> u16 {
        if channel_index < 16 {
            self.channels@[channel_index as int]
        } else {
            1000
        }
    }

    /// Constructor: failsafe channel values, link `Okay`.
    #[must_use]
    pub fn new() -> (r: Self)
        ensures
            r.channels@ == failsafe_channel_values(),
            r.link_status == RxLinkStatus::Okay,
    {
        Self {
            channels: crate::rx_channel::RxChannels::failsafe_channel_values(),
            link_status: RxLinkStatus::Okay,
        }
    }

    /// Returns true if the frame is safe to use for flight control.
    #[must_use]
    pub fn is_valid(&self) -> (r: bool)
        ensures
            r == (self.link_status == RxLinkStatus::Okay),
    {
        self.link_status == RxLinkStatus::Okay
    }

    /// Returns value of a channel, or `RxChannel::LOW` if channel index invalid.
    #[must_use]
    pub fn channel(&self, channel_index: u8) -> (r: u16)
        ensures
            r == self.channel_spec(channel_index),
            channel_index < 16 ==> r == self.channels@[channel_index as int],
            channel_index >= 16 ==> r == 1000,
    {
        let index = channel_index as usize;
        if index < Self::CHANNEL_COUNT {
            return self.channels[index];
        }
        1000
    }

    pub fn set_channels_to_failsafe_values(&mut self)
        ensures
            final(self).channels@ == failsafe_channel_values(),
            final(self).link_status == old(self).link_status,
    {
        self.channels = crate::rx_channel::RxChannels::failsafe_channel_values();
    }
}

/// Every one of the sixteen channels can be read by its index, and only an index past the
/// last channel reads as `RxChannel::LOW`.
pub proof fn lemma_channel_reads_every_channel(frame: RxChannelsLinkStatus, i: u8)
    ensures
        i < 16 ==> frame.channel_spec(i) == frame.channels@[i as int],
        i >= 16 ==> frame.channel_spec(i) == 1000,
{
}

} // verus!
