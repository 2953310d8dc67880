//! Byte-at-a-time SBUS decoder, and the unpacking of 11-bit channels shared with CRSF.
use vstd::prelude::*;
use crate::protocols::sbus_frame::SbusFrame;

verus! {

/// Byte `i` of `p` widened to 32 bits, or 0 past either end of `p`.
pub open spec fn byte_or_zero(p: Seq<u8>, i: int) -> u32 {
    if 0 <= i < p.len() {
        p[i] as u32
    } else {
        0
    }
}

/// Channel `k` of a bit-packed channel block: the 11-bit field that starts at bit `11 * k`
/// of `p`, where the bytes of `p` are laid out least significant bit first
/// (little-endian bit packing). The field is read from the (at most three) bytes that
/// cover it.
pub open spec fn packed_channel_spec(p: Seq<u8>, k: int) -> u16 {
    let first_bit = 11 * k;
    let byte = first_bit / 8;
    let shift = first_bit % 8;
    let window: u32 = byte_or_zero(p, byte) | (byte_or_zero(p, byte + 1) << 8u32) | (byte_or_zero(
        p,
        byte + 2,
    ) << 16u32);
    ((window >> (shift as u32)) & 0x7FFu32) as u16
}

/// The sixteen channels of a 22-byte bit-packed channel block.
pub open spec fn packed_channels_spec(p: Seq<u8>) -> Seq<u16> {
    Seq::new(16, |k: int| packed_channel_spec(p, k))
}

/// Reading eight 11-bit channels with four overlapping 32-bit windows gives the same
/// values as reading each 11-bit field from the bytes that cover it.
proof fn lemma_windows_match_fields(
    b0: u32,
    b1: u32,
    b2: u32,
    b3: u32,
    b4: u32,
    b5: u32,
    b6: u32,
    b7: u32,
    b8: u32,
    b9: u32,
    b10: u32,
    b11: u32,
)
    by (bit_vector)
    requires
        b0 < 256 && b1 < 256 && b2 < 256 && b3 < 256 && b4 < 256 && b5 < 256 && b6 < 256 && b7
            < 256 && b8 < 256 && b9 < 256 && b10 < 256 && b11 < 256,
    ensures
        ((b0 | b1 << 8u32 | b2 << 16u32 | b3 << 24u32) & 0x7FFu32) == (((b0 | b1 << 8u32 | b2
            << 16u32) >> 0u32) & 0x7FFu32),
        (((b0 | b1 << 8u32 | b2 << 16u32 | b3 << 24u32) >> 11u32) & 0x7FFu32) == (((b1 | b2
            << 8u32 | b3 << 16u32) >> 3u32) & 0x7FFu32),
        (((b2 | b3 << 8u32 | b4 << 16u32 | b5 << 24u32) >> 6u32) & 0x7FFu32) == (((b2 | b3
            << 8u32 | b4 << 16u32) >> 6u32) & 0x7FFu32),
        (((b2 | b3 << 8u32 | b4 << 16u32 | b5 << 24u32) >> 17u32) & 0x7FFu32) == (((b4 | b5
            << 8u32 | b6 << 16u32) >> 1u32) & 0x7FFu32),
        (((b5 | b6 << 8u32 | b7 << 16u32 | b8 << 24u32) >> 4u32) & 0x7FFu32) == (((b5 | b6
            << 8u32 | b7 << 16u32) >> 4u32) & 0x7FFu32),
        (((b5 | b6 << 8u32 | b7 << 16u32 | b8 << 24u32) >> 15u32) & 0x7FFu32) == (((b6 | b7
            << 8u32 | b8 << 16u32) >> 7u32) & 0x7FFu32),
        (((b8 | b9 << 8u32 | b10 << 16u32) >> 2u32) & 0x7FFu32) == (((b8 | b9 << 8u32 | b10
            << 16u32) >> 2u32) & 0x7FFu32),
        (((b8 | b9 << 8u32 | b10 << 16u32) >> 13u32) & 0x7FFu32) == (((b9 | b10 << 8u32 | b11
            << 16u32) >> 5u32) & 0x7FFu32),
{
}

/// Reading eight 11-bit channels by shifting and or-ing 16-bit byte values gives the same
/// values as reading each 11-bit field from the bytes that cover it.
proof fn lemma_byte_formulas_match_fields(
    b0: u16,
    b1: u16,
    b2: u16,
    b3: u16,
    b4: u16,
    b5: u16,
    b6: u16,
    b7: u16,
    b8: u16,
    b9: u16,
    b10: u16,
    b11: u16,
)
    by (bit_vector)
    requires
        b0 < 256 && b1 < 256 && b2 < 256 && b3 < 256 && b4 < 256 && b5 < 256 && b6 < 256 && b7
            < 256 && b8 < 256 && b9 < 256 && b10 < 256 && b11 < 256,
    ensures
        ((b0 | b1 << 8u16) & 0x07FFu16) == ((((b0 as u32) | (b1 as u32) << 8u32 | (b2 as u32)
            << 16u32) >> 0u32) & 0x7FFu32) as u16,
        ((b1 >> 3u16 | b2 << 5u16) & 0x07FFu16) == ((((b1 as u32) | (b2 as u32) << 8u32 | (
        b3 as u32) << 16u32) >> 3u32) & 0x7FFu32) as u16,
        ((b2 >> 6u16 | b3 << 2u16 | b4 << 10u16) & 0x07FFu16) == ((((b2 as u32) | (b3 as u32)
            << 8u32 | (b4 as u32) << 16u32) >> 6u32) & 0x7FFu32) as u16,
        ((b4 >> 1u16 | b5 << 7u16) & 0x07FFu16) == ((((b4 as u32) | (b5 as u32) << 8u32 | (
        b6 as u32) << 16u32) >> 1u32) & 0x7FFu32) as u16,
        ((b5 >> 4u16 | b6 << 4u16) & 0x07FFu16) == ((((b5 as u32) | (b6 as u32) << 8u32 | (
        b7 as u32) << 16u32) >> 4u32) & 0x7FFu32) as u16,
        ((b6 >> 7u16 | b7 << 1u16 | b8 << 9u16) & 0x07FFu16) == ((((b6 as u32) | (b7 as u32)
            << 8u32 | (b8 as u32) << 16u32) >> 7u32) & 0x7FFu32) as u16,
        ((b8 >> 2u16 | b9 << 6u16) & 0x07FFu16) == ((((b8 as u32) | (b9 as u32) << 8u32 | (
        b10 as u32) << 16u32) >> 2u32) & 0x7FFu32) as u16,
        ((b9 >> 5u16 | b10 << 3u16) & 0x07FFu16) == ((((b9 as u32) | (b10 as u32) << 8u32 | (
        b11 as u32) << 16u32) >> 5u32) & 0x7FFu32) as u16,
{
}

/// Extracts 16 channels from a 22-byte bit-packed channel block, computing each channel
/// from the (two or three) bytes that hold it.
pub(crate) fn unpack_16_channels_bytewise(p: &[u8; 22]) -> (r: [u16; 16])
    ensures
        r@ == packed_channels_spec(p@),
{
    let r = [
        ((p[0] as u16) | (p[1] as u16) << 8) & 0x07FF,
        ((p[1] as u16) >> 3 | (p[2] as u16) << 5) & 0x07FF,
        ((p[2] as u16) >> 6 | (p[3] as u16) << 2 | (p[4] as u16) << 10) & 0x07FF,
        ((p[4] as u16) >> 1 | (p[5] as u16) << 7) & 0x07FF,
        ((p[5] as u16) >> 4 | (p[6] as u16) << 4) & 0x07FF,
        ((p[6] as u16) >> 7 | (p[7] as u16) << 1 | (p[8] as u16) << 9) & 0x07FF,
        ((p[8] as u16) >> 2 | (p[9] as u16) << 6) & 0x07FF,
        ((p[9] as u16) >> 5 | (p[10] as u16) << 3) & 0x07FF,
        // the pattern repeats because we've exactly consumed 11 bytes
        ((p[11] as u16) | (p[12] as u16) << 8) & 0x07FF,
        ((p[12] as u16) >> 3 | (p[13] as u16) << 5) & 0x07FF,
        ((p[13] as u16) >> 6 | (p[14] as u16) << 2 | (p[15] as u16) << 10) & 0x07FF,
        ((p[15] as u16) >> 1 | (p[16] as u16) << 7) & 0x07FF,
        ((p[16] as u16) >> 4 | (p[17] as u16) << 4) & 0x07FF,
        ((p[17] as u16) >> 7 | (p[18] as u16) << 1 | (p[19] as u16) << 9) & 0x07FF,
        ((p[19] as u16) >> 2 | (p[20] as u16) << 6) & 0x07FF,
        ((p[20] as u16) >> 5 | (p[21] as u16) << 3) & 0x07FF,
    ];
    proof {
        let ps = p@;
        lemma_byte_formulas_match_fields(
            ps[0] as u16,
            ps[1] as u16,
            ps[2] as u16,
            ps[3] as u16,
            ps[4] as u16,
            ps[5] as u16,
            ps[6] as u16,
            ps[7] as u16,
            ps[8] as u16,
            ps[9] as u16,
            ps[10] as u16,
            ps[11] as u16,
        );
        lemma_byte_formulas_match_fields(
            ps[11] as u16,
            ps[12] as u16,
            ps[13] as u16,
            ps[14] as u16,
            ps[15] as u16,
            ps[16] as u16,
            ps[17] as u16,
            ps[18] as u16,
            ps[19] as u16,
            ps[20] as u16,
            ps[21] as u16,
            0u16,
        );
        assert forall|k: int| 0 <= k < 16 implies r@[k] == packed_channels_spec(ps)[k] by {
            assert(byte_or_zero(ps, 22) == 0);
            assert(byte_or_zero(ps, 23) == 0);
        }
        assert(r@ =~= packed_channels_spec(ps));
    }
    r
}

/// Extracts the eight channels packed into the 11 bytes `p[base..base + 11]`,
/// using four overlapping little-endian 32-bit windows.
pub(crate) fn parse_8_channels(p: &[u8; 22], base: usize) -> (r: [u16; 8])
    requires
        base == 0 || base == 11,
    ensures
        forall|j: int|
            0 <= j < 8 ==> r@[j] == #[trigger] packed_channel_spec(p@, (base / 11) * 8 + j),
        base == 0 ==> forall|j: int| 0 <= j < 8 ==> r@[j] == #[trigger] packed_channel_spec(p@, j),
        base == 11 ==> forall|j: int|
            0 <= j < 8 ==> r@[j] == #[trigger] packed_channel_spec(p@, 8 + j),
{
    let w0: u32 = (p[base] as u32) | (p[base + 1] as u32) << 8 | (p[base + 2] as u32) << 16
        | (p[base + 3] as u32) << 24;
    let w1: u32 = (p[base + 2] as u32) | (p[base + 3] as u32) << 8 | (p[base + 4] as u32) << 16
        | (p[base + 5] as u32) << 24;
    let w2: u32 = (p[base + 5] as u32) | (p[base + 6] as u32) << 8 | (p[base + 7] as u32) << 16
        | (p[base + 8] as u32) << 24;
    let w3: u32 = (p[base + 8] as u32) | (p[base + 9] as u32) << 8 | (p[base + 10] as u32) << 16;
    let r = [
        (w0 & 0x7FF) as u16,
        ((w0 >> 11) & 0x7FF) as u16,
        ((w1 >> 6) & 0x7FF) as u16,
        ((w1 >> 17) & 0x7FF) as u16,
        ((w2 >> 4) & 0x7FF) as u16,
        ((w2 >> 15) & 0x7FF) as u16,
        ((w3 >> 2) & 0x7FF) as u16,
        ((w3 >> 13) & 0x7FF) as u16,
    ];
    proof {
        let ps = p@;
        let c = (base / 11) as int;
        let b = base as int;
        lemma_windows_match_fields(
            byte_or_zero(ps, b),
            byte_or_zero(ps, b + 1),
            byte_or_zero(ps, b + 2),
            byte_or_zero(ps, b + 3),
            byte_or_zero(ps, b + 4),
            byte_or_zero(ps, b + 5),
            byte_or_zero(ps, b + 6),
            byte_or_zero(ps, b + 7),
            byte_or_zero(ps, b + 8),
            byte_or_zero(ps, b + 9),
            byte_or_zero(ps, b + 10),
            byte_or_zero(ps, b + 11),
        );
        assert forall|j: int| 0 <= j < 8 implies r@[j] == #[trigger] packed_channel_spec(
            ps,
            c * 8 + j,
        ) by {
            assert(11 * (c * 8 + j) == 88 * c + 11 * j);
            if c == 0 {
                assert(b == 0);
            } else {
                assert(b == 11);
            }
        }
    }
    r
}

/// Extracts 16 channels from a 22-byte bit-packed channel block
/// (11 bits per channel, little-endian bit packing).
/// The pattern repeats every 8 channels (every 11 bytes).
pub(crate) fn unpack_16_channels(p: &[u8; 22]) -> (r: [u16; 16])
    ensures
        r@ == packed_channels_spec(p@),
{
    let lo = parse_8_channels(p, 0);
    let hi = parse_8_channels(p, 11);
    let r = [lo[0], lo[1], lo[2], lo[3], lo[4], lo[5], lo[6], lo[7], hi[0], hi[1], hi[2], hi[3], hi[4], hi[5], hi[6], hi[7]];
    assert forall|k: int| 0 <= k < 16 implies r@[k] == packed_channels_spec(p@)[k] by {
        if k < 8 {
            assert(lo@[k] == packed_channel_spec(p@, k));
        } else {
            assert(hi@[k - 8] == packed_channel_spec(p@, 8 + (k - 8)));
        }
    }
    assert(r@ =~= packed_channels_spec(p@));
    r
}

/// Whether `f` is the frame decoded from the 24-byte packet prefix `packet`: the channels
/// unpacked from bytes 1..23, the flags byte (byte 23: bit 0 digital channel 17, bit 1
/// digital channel 18, bit 2 frame lost, bit 3 failsafe), RSSI 0.
pub open spec fn is_sbus_frame_of(f: SbusFrame, packet: Seq<u8>) -> bool {
    &&& f.channels@ == packed_channels_spec(packet.subrange(1, 23))
    &&& f.flags == packet[23]
    &&& f.rssi == 0
}

/// Which frame an SBUS step outputs.
pub enum SbusOutput {
    /// No frame completed with this byte.
    Nothing,
    /// A frame completed with this byte: the 24 packet bytes before the footer.
    Frame(Seq<u8>),
}

/// One step of the SBUS decoder. `pending` is the part of the current packet received
/// so far (empty while waiting for a header). An SBUS packet is 25 bytes: header 0x0F,
/// 22 channel bytes, a flags byte and the footer 0x00.
/// Returns the new pending bytes and the packet completed by `byte`, if any.
pub open spec fn sbus_step(pending: Seq<u8>, byte: u8) -> (Seq<u8>, SbusOutput) {
    if pending.len() == 0 {
        if byte == 0x0F {
            (seq![byte], SbusOutput::Nothing)
        } else {
            (seq![], SbusOutput::Nothing)
        }
    } else if pending.len() < 24 {
        (pending.push(byte), SbusOutput::Nothing)
    } else if byte == 0x00 {
        (seq![], SbusOutput::Frame(pending))
    } else {
        (seq![], SbusOutput::Nothing)
    }
}

/// Feeding `bytes` one by one from `pending` until a frame completes: the pending bytes
/// after the last byte fed, and the completed packet, if any.
pub open spec fn sbus_feed_until_frame(pending: Seq<u8>, bytes: Seq<u8>) -> (Seq<u8>, SbusOutput)
    decreases bytes.len(),
{
    if bytes.len() == 0 {
        (pending, SbusOutput::Nothing)
    } else {
        let (next, out) = sbus_step(pending, bytes[0]);
        match out {
            SbusOutput::Frame(p) => (next, SbusOutput::Frame(p)),
            SbusOutput::Nothing => sbus_feed_until_frame(next, bytes.drop_first()),
        }
    }
}

#[derive(Clone, Copy, Debug, PartialEq)]
enum State {
    WaitingForHeader,
    CollectingPayload { index: usize },
    ValidatingFooter,
}

/// An SBUS frame is 25 bytes total:
/// Byte 0: Header (0x0F).
/// Bytes 1-22: The channel data.
/// Byte 23: Flags Byte (Contains digital channels 17/18 and the Failsafe/Frame Lost bits)
/// Byte 24: Footer (0x00).
///
/// SBUS is inverted. For microcontrollers that don't support "Inverted UART",
/// a hardware inverter (a simple NPN transistor or a NOT gate) is required.
#[derive(Clone, Copy, Debug, PartialEq)]
pub struct SbusDecoder {
    state: State,
    buffer: [u8; 25],
}

impl SbusDecoder {
    #[verifier::type_invariant]
    spec fn inv(self) -> bool {
        &&& self.buffer@.len() == 25
        &&& match self.state {
            State::WaitingForHeader => true,
            State::CollectingPayload { index } => 1 <= index <= 23 && self.buffer@[0] == 0x0F,
            State::ValidatingFooter => self.buffer@[0] == 0x0F,
        }
    }
}

impl View for SbusDecoder {
    type V = Seq<u8>;

    /// The bytes of the packet received so far.
    closed spec fn view(&self) -> Seq<u8> {
        match self.state {
            State::WaitingForHeader => seq![],
            State::CollectingPayload { index } => self.buffer@.take(index as int),
            State::ValidatingFooter => self.buffer@.take(24),
        }
    }
}

impl Default for SbusDecoder {
    fn default() -> (r: Self)
        ensures
            r@ == Seq::<u8>::empty(),
    {
        Self::new()
    }
}

impl SbusDecoder {
    pub const PACKET_LENGTH: usize = 25;
    pub const HEADER_LENGTH: usize = 1;
    pub const PAYLOAD_LENGTH: usize = 22;

    /// A decoder waiting for a packet header.
    #[must_use]
    pub fn new() -> (r: Self)
        ensures
            r@ == Seq::<u8>::empty(),
    {
        Self { state: State::WaitingForHeader, buffer: [0u8; 25] }
    }

    /// Takes one byte and returns a frame when a full packet with a valid footer is completed.
    pub fn on_byte_received(&mut self, byte: u8) -> (r: Option<SbusFrame>)
        ensures
            final(self)@ == sbus_step(old(self)@, byte).0,
            match sbus_step(old(self)@, byte).1 {
                SbusOutput::Nothing => r is None,
                SbusOutput::Frame(packet) => r matches Some(f) && is_sbus_frame_of(f, packet),
            },
    {
        proof {
            use_type_invariant(&*self);
        }
        let mut complete = false;
        match self.state {
            State::WaitingForHeader => {
                if byte == 0x0F {
                    // A valid header byte: start collecting the payload.
                    self.buffer[0] = byte;
                    self.state = State::CollectingPayload { index: 1 };
                    assert(self.buffer@.take(1) =~= seq![byte]);
                }
            },
            State::CollectingPayload { index } => {
                let ghost old_buf = self.buffer@;
                self.buffer[index] = byte;
                let index = index + 1;
                assert(self.buffer@.take(index as int) =~= old_buf.take(index - 1).push(byte));
                if index > Self::HEADER_LENGTH + Self::PAYLOAD_LENGTH {
                    // The payload and flags are collected: move on to the footer.
                    self.state = State::ValidatingFooter;
                } else {
                    self.state = State::CollectingPayload { index };
                }
            },
            State::ValidatingFooter => {
                if byte == 0x00 {
                    complete = true;
                }
                self.state = State::WaitingForHeader;
            },
        }
        if complete {
            let mut data = [0u8; 22];
            let mut i: usize = 0;
            while i < 22
                invariant
                    i <= 22,
                    data@.len() == 22,
                    self.buffer@.len() == 25,
                    forall|j: int| 0 <= j < i ==> data@[j] == self.buffer@[j + 1],
                decreases 22 - i,
            {
                data[i] = self.buffer[i + 1];
                i += 1;
            }
            assert(data@ =~= self.buffer@.take(24).subrange(1, 23));
            let channels = unpack_16_channels(&data);
            Some(SbusFrame { channels, flags: self.buffer[23], rssi: 0 })
        } else {
            None
        }
    }

    /// Feeds the bytes of `buffer` until a frame completes, and returns that frame.
    pub fn parse(&mut self, buffer: &[u8; 25]) -> (r: Option<SbusFrame>)
        ensures
            final(self)@ == sbus_feed_until_frame(old(self)@, buffer@).0,
            match sbus_feed_until_frame(old(self)@, buffer@).1 {
                SbusOutput::Nothing => r is None,
                SbusOutput::Frame(packet) => r matches Some(f) && is_sbus_frame_of(f, packet),
            },
    {
        let mut i: usize = 0;
        assert(buffer@.skip(0) =~= buffer@);
        while i < 25
            invariant
                i <= 25,
                buffer@.len() == 25,
                sbus_feed_until_frame(self@, buffer@.skip(i as int)) == sbus_feed_until_frame(
                    old(self)@,
                    buffer@,
                ),
            decreases 25 - i,
        {
            proof {
                assert(buffer@.skip(i as int).drop_first() =~= buffer@.skip(i + 1));
            }
            if let Some(frame) = self.on_byte_received(buffer[i]) {
                return Some(frame);
            }
            i += 1;
        }
        None
    }

    /// Extracts 16 channels from a 22-byte SBUS payload.
    /// SBUS uses 11 bits per channel, little-endian bit packing.
    #[must_use]
    pub fn parse_sbus_channels(p: &[u8; 22]) -> (r: [u16; 16])
        ensures
            r@ == packed_channels_spec(p@),
    {
        unpack_16_channels(p)
    }
}

proof fn lemma_sbus_packet_suffix(packet: Seq<u8>, n: int)
    requires
        packet.len() == 25,
        packet[0] == 0x0F,
        packet[24] == 0x00,
        1 <= n <= 24,
    ensures
        sbus_feed_until_frame(packet.take(n), packet.skip(n)) == (
            Seq::<u8>::empty(),
            SbusOutput::Frame(packet.take(24)),
        ),
    decreases 24 - n,
{
    let (next, out) = sbus_step(packet.take(n), packet.skip(n)[0]);
    if n < 24 {
        assert(packet.take(n).push(packet[n]) =~= packet.take(n + 1));
        assert(packet.skip(n).drop_first() =~= packet.skip(n + 1));
        lemma_sbus_packet_suffix(packet, n + 1);
    }
}

/// From a decoder waiting for a header, a 25-byte packet with header 0x0F and footer 0x00
/// yields exactly one frame, on its last byte, decoded from the packet's first 24 bytes;
/// the decoder is then waiting for the next header.
pub proof fn lemma_sbus_packet_decodes(packet: Seq<u8>)
    requires
        packet.len() == 25,
        packet[0] == 0x0F,
        packet[24] == 0x00,
    ensures
        sbus_feed_until_frame(Seq::<u8>::empty(), packet) == (
            Seq::<u8>::empty(),
            SbusOutput::Frame(packet.take(24)),
        ),
{
    assert(seq![packet[0]] =~= packet.take(1));
    assert(packet.drop_first() =~= packet.skip(1));
    lemma_sbus_packet_suffix(packet, 1);
}

/// Feeding `a` then `b` is feeding `a + b`, when no frame completes within `a`.
pub proof fn lemma_sbus_feed_append(pending: Seq<u8>, a: Seq<u8>, b: Seq<u8>)
    requires
        sbus_feed_until_frame(pending, a).1 is Nothing,
    ensures
        sbus_feed_until_frame(pending, a + b) == sbus_feed_until_frame(
            sbus_feed_until_frame(pending, a).0,
            b,
        ),
    decreases a.len(),
{
    if a.len() == 0 {
        assert(a + b =~= b);
    } else {
        assert((a + b)[0] == a[0]);
        assert((a + b).drop_first() =~= a.drop_first() + b);
        lemma_sbus_feed_append(sbus_step(pending, a[0]).0, a.drop_first(), b);
    }
}

/// Resynchronisation: whatever bytes came before, once the decoder is waiting for a header
/// again with no frame completed, a following packet with header 0x0F and footer 0x00 is
/// decoded.
pub proof fn lemma_sbus_recovers_after_noise(pending: Seq<u8>, noise: Seq<u8>, packet: Seq<u8>)
    requires
        sbus_feed_until_frame(pending, noise) == (Seq::<u8>::empty(), SbusOutput::Nothing),
        packet.len() == 25,
        packet[0] == 0x0F,
        packet[24] == 0x00,
    ensures
        sbus_feed_until_frame(pending, noise + packet).1 == SbusOutput::Frame(packet.take(24)),
{
    lemma_sbus_feed_append(pending, noise, packet);
    lemma_sbus_packet_decodes(packet);
}

/// A packet whose footer is not 0x00 yields no frame, and leaves the decoder waiting
/// for the next header.
pub proof fn lemma_sbus_bad_footer_rejected(pending: Seq<u8>, byte: u8)
    requires
        pending.len() == 24,
        byte != 0x00,
    ensures
        sbus_step(pending, byte) == (Seq::<u8>::empty(), SbusOutput::Nothing),
{
}

} // verus!
