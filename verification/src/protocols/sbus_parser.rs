//! Byte-at-a-time SBUS parser producing `SbusFrame`s.
use vstd::prelude::*;
use crate::protocols::sbus_decoder::{
    SbusOutput, is_sbus_frame_of, packed_channels_spec, sbus_feed_until_frame, sbus_step,
    unpack_16_channels_bytewise,
};
use crate::protocols::sbus_frame::SbusFrame;

verus! {

#[derive(Clone, Copy, Debug, PartialEq)]
enum ParserState {
    WaitingForHeader,
    CollectingPayload { index: usize },
    ValidatingFooter,
}

/// An SBUS frame is 25 bytes total:
/// Byte 0: Header (0x0F).
/// Bytes 1-22: The channel data.
/// Byte 23: Flags Byte (Contains digital channels 17/18 and the Failsafe/Frame Lost bits)
/// Byte 24: Footer (0x00).
///
/// SBUS is inverted. For microcontrollers that don't support "Inverted UART",
/// a hardware inverter (a simple NPN transistor or a NOT gate) is required.
#[derive(Clone, Copy, Debug, PartialEq)]
pub struct SbusParser {
    state: ParserState,
    buffer: [u8; 25],
}

impl SbusParser {
    #[verifier::type_invariant]
    spec fn inv(self) -> bool {
        &&& self.buffer@.len() == 25
        &&& match self.state {
            ParserState::WaitingForHeader => true,
            ParserState::CollectingPayload { index } => 1 <= index <= 23 && self.buffer@[0] == 0x0F,
            ParserState::ValidatingFooter => self.buffer@[0] == 0x0F,
        }
    }
}

impl View for SbusParser {
    type V = Seq<u8>;

    /// The bytes of the packet received so far.
    closed spec fn view(&self) -> Seq<u8> {
        match self.state {
            ParserState::WaitingForHeader => seq![],
            ParserState::CollectingPayload { index } => self.buffer@.take(index as int),
            ParserState::ValidatingFooter => self.buffer@.take(24),
        }
    }
}

impl Default for SbusParser {
    fn default() -> (r: Self)
        ensures
            r@ == Seq::<u8>::empty(),
    {
        Self::new()
    }
}

impl SbusParser {
    pub const PACKET_LENGTH: usize = 25;
    pub const HEADER_LENGTH: usize = 1;
    pub const PAYLOAD_LENGTH: usize = 22;

    /// A parser waiting for a packet header.
    pub fn new() -> (r: Self)
        ensures
            r@ == Seq::<u8>::empty(),
    {
        Self { state: ParserState::WaitingForHeader, buffer: [0u8; 25] }
    }

    /// Takes one byte and returns a frame when a full packet with a valid footer is completed.
    pub fn feed(&mut self, byte: u8) -> (r: Option<SbusFrame>)
        ensures
            final(self)@ == sbus_step(old(self)@, byte).0,
            match sbus_step(old(self)@, byte).1 {
                SbusOutput::Nothing => r is None,
                SbusOutput::Frame(packet) => r matches Some(f) && is_sbus_frame_of(f, packet),
            },
    {
        proof {
            use_type_invariant(&*self);
        }
        match self.state {
            ParserState::WaitingForHeader => {
                if byte == 0x0F {
                    // We have a valid header byte, so start collecting the payload.
                    self.buffer[0] = byte;
                    self.state = ParserState::CollectingPayload { index: 1 };
                    assert(self.buffer@.take(1) =~= seq![byte]);
                }
            },
            // Collect the 22 bytes of payload and the flags byte.
            ParserState::CollectingPayload { index } => {
                let ghost old_buf = self.buffer@;
                self.buffer[index] = byte;
                let index = index + 1;
                assert(self.buffer@.take(index as int) =~= old_buf.take(index - 1).push(byte));
                // When we have collected the payload, move onto the footer.
                if index > Self::HEADER_LENGTH + Self::PAYLOAD_LENGTH {
                    self.state = ParserState::ValidatingFooter;
                } else {
                    self.state = ParserState::CollectingPayload { index };
                }
            },
            ParserState::ValidatingFooter => {
                self.state = ParserState::WaitingForHeader;
                if byte == 0x00 {
                    // SBUS footer.
                    let mut data = [0u8; 22];
                    let mut i: usize = 0;
                    while i < 22
                        invariant
                            i <= 22,
                            data@.len() == 22,
                            self.buffer@.len() == 25,
                            forall|j: int| 0 <= j < i ==> data@[j] == self.buffer@[j + 1],
                        decreases 22 - i,
                    {
                        data[i] = self.buffer[i + 1];
                        i += 1;
                    }
                    assert(data@ =~= self.buffer@.take(24).subrange(1, 23));
                    let channels = Self::parse_sbus_channels(&data);
                    return Some(SbusFrame { channels, flags: self.buffer[23], rssi: 0 });
                }
            },
        }
        None
    }

    /// Extracts 16 channels from a 22-byte SBUS payload.
    /// SBUS uses 11 bits per channel, little-endian bit packing; each channel is computed
    /// from the (two or three) bytes that hold it.
    pub fn parse_sbus_channels(p: &[u8; 22]) -> (r: [u16; 16])
        ensures
            r@ == packed_channels_spec(p@),
    {
        unpack_16_channels_bytewise(p)
    }

    /// Feeds the bytes of `buffer` until a frame completes, and returns that frame.
    pub fn parse(&mut self, buffer: &[u8; 25]) -> (r: Option<SbusFrame>)
        ensures
            final(self)@ == sbus_feed_until_frame(old(self)@, buffer@).0,
            match sbus_feed_until_frame(old(self)@, buffer@).1 {
                SbusOutput::Nothing => r is None,
                SbusOutput::Frame(packet) => r matches Some(f) && is_sbus_frame_of(f, packet),
            },
    {
        let mut i: usize = 0;
        assert(buffer@.skip(0) =~= buffer@);
        while i < 25
            invariant
                i <= 25,
                buffer@.len() == 25,
                sbus_feed_until_frame(self@, buffer@.skip(i as int)) == sbus_feed_until_frame(
                    old(self)@,
                    buffer@,
                ),
            decreases 25 - i,
        {
            proof {
                assert(buffer@.skip(i as int).drop_first() =~= buffer@.skip(i + 1));
            }
            if let Some(frame) = self.feed(buffer[i]) {
                return Some(frame);
            }
            i += 1;
        }
        None
    }
}

} // verus!
