//! SBUS flags, an SBUS frame with decoded flags, and a byte-at-a-time SBUS parser.
use vstd::prelude::*;
use vstd::std_specs::convert::FromSpecImpl;
use crate::protocols::sbus_decoder::{
    SbusOutput, packed_channels_spec, sbus_step, unpack_16_channels_bytewise,
};
use crate::protocols::sbus_frame::{normalize_sbus_value, sbus_link_status};
use crate::rx_receiver::{RxFrame, RxLinkStatus};

verus! {

/// The flags byte of an SBUS packet.
#[derive(Clone, Copy, Debug, PartialEq, Eq, Structural)]
pub struct SbusFlags {
    pub aux13: bool,
    pub aux14: bool,
    pub frame_lost: bool,
    pub failsafe: bool,
}

/// The flags a flags byte holds: bit 0 digital channel 17, bit 1 digital channel 18,
/// bit 2 frame lost, bit 3 failsafe.
pub open spec fn sbus_flags_of_byte(byte: u8) -> SbusFlags {
    SbusFlags {
        aux13: byte & 0x01u8 != 0,
        aux14: byte & 0x02u8 != 0,
        frame_lost: byte & 0x04u8 != 0,
        failsafe: byte & 0x08u8 != 0,
    }
}

/// Each decoded flag is exactly its own bit of the flags byte, whatever the other bits hold:
/// digital channel 17 is bit 0, digital channel 18 bit 1, frame lost bit 2, failsafe bit 3.
/// So a frame whose flags byte has the failsafe bit set is reported failsafe, and one with
/// only the frame-lost bit of the two set is reported as having no signal.
pub proof fn lemma_sbus_flags_are_bits(byte: u8)
    ensures
        sbus_flags_of_byte(byte).aux13 == ((byte >> 0u8) & 1u8 == 1u8),
        sbus_flags_of_byte(byte).aux14 == ((byte >> 1u8) & 1u8 == 1u8),
        sbus_flags_of_byte(byte).frame_lost == ((byte >> 2u8) & 1u8 == 1u8),
        sbus_flags_of_byte(byte).failsafe == ((byte >> 3u8) & 1u8 == 1u8),
        (byte >> 3u8) & 1u8 == 1u8 ==> sbus_link_status(byte) == RxLinkStatus::Failsafe,
        (byte >> 3u8) & 1u8 == 0u8 && (byte >> 2u8) & 1u8 == 1u8 ==> sbus_link_status(byte)
            == RxLinkStatus::NoSignal,
        (byte >> 3u8) & 1u8 == 0u8 && (byte >> 2u8) & 1u8 == 0u8 ==> sbus_link_status(byte)
            == RxLinkStatus::Okay,
{
    assert((byte & 0x01u8 != 0) == ((byte >> 0u8) & 1u8 == 1u8)) by (bit_vector);
    assert((byte & 0x02u8 != 0) == ((byte >> 1u8) & 1u8 == 1u8)) by (bit_vector);
    assert((byte & 0x04u8 != 0) == ((byte >> 2u8) & 1u8 == 1u8)) by (bit_vector);
    assert((byte & 0x08u8 != 0) == ((byte >> 3u8) & 1u8 == 1u8)) by (bit_vector);
    assert((byte >> 3u8) & 1u8 == 0u8 || (byte >> 3u8) & 1u8 == 1u8) by (bit_vector);
    assert((byte >> 2u8) & 1u8 == 0u8 || (byte >> 2u8) & 1u8 == 1u8) by (bit_vector);
}

impl SbusFlags {
    /// Constructor: no flag set.
    pub fn new() -> (r: Self)
        ensures
            r == (SbusFlags { aux13: false, aux14: false, frame_lost: false, failsafe: false }),
    {
        Self { aux13: false, aux14: false, frame_lost: false, failsafe: false }
    }

    /// Decodes a flags byte: bit 0 digital channel 17, bit 1 digital channel 18,
    /// bit 2 frame lost, bit 3 failsafe.
    pub fn from_byte(byte: u8) -> (r: Self)
        ensures
            r == sbus_flags_of_byte(byte),
            r.aux13 == (byte & 0x01u8 != 0),
            r.aux14 == (byte & 0x02u8 != 0),
            r.frame_lost == (byte & 0x04u8 != 0),
            r.failsafe == (byte & 0x08u8 != 0),
    {
        Self {
            aux13: (byte & 0x01) != 0,
            aux14: (byte & 0x02) != 0,
            frame_lost: (byte & 0x04) != 0,
            failsafe: (byte & 0x08) != 0,
        }
    }
}

impl Default for SbusFlags {
    fn default() -> (r: Self)
        ensures
            r == (SbusFlags { aux13: false, aux14: false, frame_lost: false, failsafe: false }),
    {
        Self::new()
    }
}

/// An SBUS frame with decoded flags.
#[derive(Clone, Copy, Debug, PartialEq)]
pub struct SbusFrame {
    pub channels: [u16; 16],
    pub flags: SbusFlags,
    pub failsafe: bool,
    pub frame_lost: bool,
    pub rssi: u8,
}

impl SbusFrame {
    // Channels AUX13 and AUX14 are not used, since no other protocol uses more than 16 channels.
    pub const CHANNEL_COUNT: usize = 16;
    pub const PWM_LOW: u32 = 172;
    pub const PWM_HIGH: u32 = 1811;
    pub const PWM_RANGE: u32 = 1639;

    /// Constructor: all channels 0, no flag set.
    pub fn new() -> (r: Self)
        ensures
            r.channels@ == Seq::new(16, |i: int| 0u16),
            r.flags == SbusFlags::default_spec(),
            !r.failsafe && !r.frame_lost && r.rssi == 0,
    {
        let r = Self { channels: [0u16; 16], flags: SbusFlags::new(), failsafe: false, frame_lost: false, rssi: 0 };
        assert(r.channels@ =~= Seq::new(16, |i: int| 0u16));
        r
    }

    /// SBUS values typically range from 172 to 1811 (representing 1000µs to 2000µs),
    /// so they need to be normalized to the standard PWM range `[1000,2000]`.
    pub fn normalize_channels(input: &[u16; 16]) -> (r: [u16; 16])
        ensures
            forall|i: int| 0 <= i < 16 ==> r@[i] == normalize_sbus_value(#[trigger] input@[i]),
    {
        let mut output = [0u16; 16];
        let mut i: usize = 0;
        while i < 16
            invariant
                i <= 16,
                output@.len() == 16,
                forall|j: int| 0 <= j < i ==> output@[j] == normalize_sbus_value(#[trigger] input@[j]),
            decreases 16 - i,
        {
            let v = input[i] as u32;
            let val: u32 = if v < Self::PWM_LOW {
                Self::PWM_LOW
            } else if v > Self::PWM_HIGH {
                Self::PWM_HIGH
            } else {
                v
            };
            output[i] = ((val - Self::PWM_LOW) * 1000 / Self::PWM_RANGE + 1000) as u16;
            i += 1;
        }
        output
    }
}

impl Default for SbusFrame {
    fn default() -> (r: Self)
        ensures
            r.channels@ == Seq::new(16, |i: int| 0u16),
            r.flags == SbusFlags::default_spec(),
            !r.failsafe && !r.frame_lost && r.rssi == 0,
    {
        Self::new()
    }
}

/// The link status of an SBUS frame: `Failsafe` when its flags report failsafe, otherwise
/// `NoSignal` when the frame is marked lost, otherwise `Okay`.
pub open spec fn sbus_frame_link_status(frame: SbusFrame) -> RxLinkStatus {
    if frame.flags.failsafe {
        RxLinkStatus::Failsafe
    } else if frame.frame_lost {
        RxLinkStatus::NoSignal
    } else {
        RxLinkStatus::Okay
    }
}

impl From<SbusFrame> for RxFrame {
    fn from(frame: SbusFrame) -> (r: Self)
        ensures
            r.channels == frame.channels,
            r.status == sbus_frame_link_status(frame),
            r.rssi == frame.rssi,
    {
        let status = if frame.flags.failsafe {
            RxLinkStatus::Failsafe
        } else if frame.frame_lost {
            RxLinkStatus::NoSignal
        } else {
            RxLinkStatus::Okay
        };
        RxFrame { channels: frame.channels, status, rssi: frame.rssi }
    }
}

impl FromSpecImpl<SbusFrame> for RxFrame {
    open spec fn obeys_from_spec() -> bool {
        true
    }

    open spec fn from_spec(frame: SbusFrame) -> RxFrame {
        RxFrame { channels: frame.channels, status: sbus_frame_link_status(frame), rssi: frame.rssi }
    }
}

#[derive(Clone, Copy, Debug, PartialEq)]
enum ParserState {
    WaitingForHeader,
    CollectingPayload { index: usize },
    ValidatingFooter,
}

/// An SBUS frame is 25 bytes total:
/// Byte 0: Header (0x0F).
/// Bytes 1-22: The channel data.
/// Byte 23: Flags Byte (Contains digital channels 17/18 and the Failsafe/Frame Lost bits)
/// Byte 24: Footer (0x00).
///
/// SBUS is inverted. For microcontrollers that don't support "Inverted UART",
/// a hardware inverter (a simple NPN transistor or a NOT gate) is required.
#[derive(Clone, Copy, Debug, PartialEq)]
pub struct SbusParser {
    state: ParserState,
    buffer: [u8; 25],
}

impl SbusParser {
    #[verifier::type_invariant]
    spec fn inv(self) -> bool {
        &&& self.buffer@.len() == 25
        &&& match self.state {
            ParserState::WaitingForHeader => true,
            ParserState::CollectingPayload { index } => 1 <= index <= 23 && self.buffer@[0] == 0x0F,
            ParserState::ValidatingFooter => self.buffer@[0] == 0x0F,
        }
    }
}

impl View for SbusParser {
    type V = Seq<u8>;

    /// The bytes of the packet received so far.
    closed spec fn view(&self) -> Seq<u8> {
        match self.state {
            ParserState::WaitingForHeader => seq![],
            ParserState::CollectingPayload { index } => self.buffer@.take(index as int),
            ParserState::ValidatingFooter => self.buffer@.take(24),
        }
    }
}

impl SbusParser {
    pub const HEADER_LENGTH: usize = 1;
    pub const PAYLOAD_LENGTH: usize = 22;

    /// Takes one byte and returns a frame when a full packet with a valid footer is completed.
    pub fn feed(&mut self, byte: u8) -> (r: Option<SbusFrame>)
        ensures
            final(self)@ == sbus_step(old(self)@, byte).0,
            match sbus_step(old(self)@, byte).1 {
                SbusOutput::Nothing => r is None,
                SbusOutput::Frame(packet) => r matches Some(f) && f.channels@ == packed_channels_spec(
                    packet.subrange(1, 23),
                ) && f.flags == sbus_flags_of_byte(packet[23]) && f.failsafe == (packet[23] & 0x08u8
                    != 0) && f.frame_lost == (packet[23] & 0x04u8 != 0) && f.rssi == 0,
            },
    {
        proof {
            use_type_invariant(&*self);
        }
        match self.state {
            ParserState::WaitingForHeader => {
                if byte == 0x0F {
                    // We have a valid header byte, so start collecting the payload.
                    self.buffer[0] = byte;
                    self.state = ParserState::CollectingPayload { index: 1 };
                    assert(self.buffer@.take(1) =~= seq![byte]);
                }
            },
            // Collect the 22 bytes of payload and the flags byte.
            ParserState::CollectingPayload { index } => {
                let ghost old_buf = self.buffer@;
                self.buffer[index] = byte;
                let index = index + 1;
                assert(self.buffer@.take(index as int) =~= old_buf.take(index - 1).push(byte));
                // When we have collected the payload, move onto the footer.
                if index > Self::HEADER_LENGTH + Self::PAYLOAD_LENGTH {
                    self.state = ParserState::ValidatingFooter;
                } else {
                    self.state = ParserState::CollectingPayload { index };
                }
            },
            ParserState::ValidatingFooter => {
                self.state = ParserState::WaitingForHeader;
                if byte == 0x00 {
                    // SBUS footer.
                    let mut data = [0u8; 22];
                    let mut i: usize = 0;
                    while i < 22
                        invariant
                            i <= 22,
                            data@.len() == 22,
                            self.buffer@.len() == 25,
                            forall|j: int| 0 <= j < i ==> data@[j] == self.buffer@[j + 1],
                        decreases 22 - i,
                    {
                        data[i] = self.buffer[i + 1];
                        i += 1;
                    }
                    assert(data@ =~= self.buffer@.take(24).subrange(1, 23));
                    let channels = Self::parse_sbus_channels(&data);
                    // The flags byte follows the channel bytes.
                    let flags = SbusFlags::from_byte(self.buffer[23]);
                    return Some(
                        SbusFrame {
                            channels,
                            flags,
                            failsafe: flags.failsafe,
                            frame_lost: flags.frame_lost,
                            rssi: 0,
                        },
                    );
                }
            },
        }
        None
    }

    /// Extracts 16 channels from a 22-byte SBUS payload.
    /// SBUS uses 11 bits per channel, little-endian bit packing; each channel is computed
    /// from the (two or three) bytes that hold it.
    pub fn parse_sbus_channels(p: &[u8; 22]) -> (r: [u16; 16])
        ensures
            r@ == packed_channels_spec(p@),
    {
        unpack_16_channels_bytewise(p)
    }
}

impl SbusFlags {
    /// No flag set.
    pub open spec fn default_spec() -> Self {
        SbusFlags { aux13: false, aux14: false, frame_lost: false, failsafe: false }
    }
}

} // verus!
