//! Byte-at-a-time CRSF (Crossfire) decoder for RC channel packets.
use vstd::prelude::*;
use crate::protocols::crc_dvb_s2::{CrcDvbS2, crc_bitwise_spec};
use crate::protocols::sbus_decoder::{packed_channels_spec, unpack_16_channels};

verus! {

/// Maximum channels provided by CRSF.
pub const CRSF_MAX_CHANNELS: usize = 16;

/// Length of the raw bit-packed channels block (16 channels * 11 bits = 176 bits = 22 bytes).
pub const CRSF_PAYLOAD_LEN: usize = 22;

/// The channels of the last RC channels packet decoded.
#[derive(Clone, Copy, Debug, PartialEq, Eq)]
pub struct CrsfFrame {
    pub channels: [u16; 16],
}

impl Default for CrsfFrame {
    fn default() -> (r: Self)
        ensures
            r.channels@ == Seq::new(16, |i: int| 0u16),
    {
        let r = CrsfFrame { channels: [0u16; 16] };
        assert(r.channels@ =~= Seq::new(16, |i: int| 0u16));
        r
    }
}

/// Where the decoder is within a packet.
pub enum CrsfPhase {
    /// Waiting for the address (sync) byte 0xC8.
    WaitForAddressByte,
    /// Waiting for the length byte.
    WaitLength,
    /// `index` bytes of type and payload received, of `expected_len - 1`.
    ReadPayload { index: nat, expected_len: nat },
    /// Waiting for the CRC byte.
    ValidateChecksum,
}

/// The abstract state of a CRSF decoder: the phase, the 23-byte packet buffer (type byte
/// and channel payload; bytes not overwritten by the current packet keep their earlier
/// values) and the channels of the last packet decoded.
pub struct CrsfModel {
    pub phase: CrsfPhase,
    pub buffer: Seq<u8>,
    pub channels: Seq<u16>,
}

/// One step of the CRSF decoder. A packet is: address 0xC8, length (3..=24; counts the
/// type, payload and CRC bytes), type and payload (`length - 1` bytes), CRC.
/// The CRC byte is checked against the CRC of the whole 23-byte buffer, and the packet is
/// accepted only when the type byte is 0x16 (RC channels packed).
/// Returns the new state, and the channels of the packet accepted with this byte, if any.
pub open spec fn crsf_step(m: CrsfModel, byte: u8) -> (CrsfModel, Option<Seq<u16>>) {
    match m.phase {
        CrsfPhase::WaitForAddressByte => (
            CrsfModel {
                phase: if byte == 0xC8 {
                    CrsfPhase::WaitLength
                } else {
                    CrsfPhase::WaitForAddressByte
                },
                ..m
            },
            None,
        ),
        CrsfPhase::WaitLength => (
            CrsfModel {
                phase: if 3 <= byte <= 24 {
                    CrsfPhase::ReadPayload { index: 0, expected_len: byte as nat }
                } else {
                    CrsfPhase::WaitForAddressByte
                },
                ..m
            },
            None,
        ),
        CrsfPhase::ReadPayload { index, expected_len } => (
            CrsfModel {
                phase: if index + 1 >= expected_len - 1 {
                    CrsfPhase::ValidateChecksum
                } else {
                    CrsfPhase::ReadPayload { index: index + 1, expected_len }
                },
                buffer: m.buffer.update(index as int, byte),
                ..m
            },
            None,
        ),
        CrsfPhase::ValidateChecksum => {
            if crc_bitwise_spec(m.buffer) == byte && m.buffer[0] == 0x16 {
                let channels = packed_channels_spec(m.buffer.subrange(1, 23));
                (
                    CrsfModel {
                        phase: CrsfPhase::WaitForAddressByte,
                        channels,
                        ..m
                    },
                    Some(channels),
                )
            } else {
                (CrsfModel { phase: CrsfPhase::WaitForAddressByte, ..m }, None)
            }
        },
    }
}

/// The state and output after feeding `bytes` one by one from `m`; the output is that of
/// the last byte.
pub open spec fn crsf_feed(m: CrsfModel, bytes: Seq<u8>) -> (CrsfModel, Option<Seq<u16>>)
    decreases bytes.len(),
{
    if bytes.len() == 0 {
        (m, None)
    } else if bytes.len() == 1 {
        crsf_step(m, bytes[0])
    } else {
        crsf_feed(crsf_step(m, bytes[0]).0, bytes.drop_first())
    }
}

/// The states a decoder can be in: a 23-byte buffer, 16 channels, and a payload index
/// inside the packet's type-and-payload bytes.
pub open spec fn crsf_model_wf(m: CrsfModel) -> bool {
    &&& m.buffer.len() == 23
    &&& m.channels.len() == 16
    &&& m.phase matches CrsfPhase::ReadPayload { index, expected_len } ==> 3 <= expected_len <= 24
        && index < expected_len - 1
}

/// Every step keeps a decoder state well formed.
pub proof fn lemma_crsf_step_keeps_wf(m: CrsfModel, byte: u8)
    requires
        crsf_model_wf(m),
    ensures
        crsf_model_wf(crsf_step(m, byte).0),
{
}

/// The state of the CRSF decoder.
#[derive(Clone, Copy, Debug, PartialEq, Eq)]
pub enum State {
    WaitForAddressByte,
    WaitLength,
    ReadPayload { index: usize, expected_len: usize },
    ValidateChecksum,
}

impl Default for State {
    fn default() -> (r: Self)
        ensures
            r == State::WaitForAddressByte,
    {
        State::WaitForAddressByte
    }
}

/// CRSF decoder: collects the type and payload bytes of a packet and checks its CRC.
#[derive(Clone, Copy, Debug, PartialEq, Eq)]
pub struct CrsfDecoder {
    state: State,
    frame: CrsfFrame,
    buffer: [u8; 23],
}

impl CrsfDecoder {
    #[verifier::type_invariant]
    spec fn inv(self) -> bool {
        self.buffer@.len() == 23 && self.frame.channels@.len() == 16 && match self.state {
            State::ReadPayload { index, expected_len } => 3 <= expected_len <= 24 && index
                < expected_len - 1,
            _ => true,
        }
    }
}

impl View for CrsfDecoder {
    type V = CrsfModel;

    closed spec fn view(&self) -> CrsfModel {
        CrsfModel {
            phase: match self.state {
                State::WaitForAddressByte => CrsfPhase::WaitForAddressByte,
                State::WaitLength => CrsfPhase::WaitLength,
                State::ReadPayload { index, expected_len } => CrsfPhase::ReadPayload {
                    index: index as nat,
                    expected_len: expected_len as nat,
                },
                State::ValidateChecksum => CrsfPhase::ValidateChecksum,
            },
            buffer: self.buffer@,
            channels: self.frame.channels@,
        }
    }
}

impl Default for CrsfDecoder {
    fn default() -> (r: Self)
        ensures
            r@.phase == CrsfPhase::WaitForAddressByte,
            r@.buffer == Seq::new(23, |i: int| 0u8),
            r@.channels == Seq::new(16, |i: int| 1000u16),
    {
        Self::new()
    }
}

impl CrsfDecoder {
    pub const CHANNEL_COUNT: usize = 16;
    pub const BUFFER_SIZE: usize = 23;
    pub const ADDRESS_BYTE: u8 = 0xC8;

    /// A decoder waiting for an address byte, with all channels at 1000.
    #[must_use]
    pub fn new() -> (r: Self)
        ensures
            r@.phase == CrsfPhase::WaitForAddressByte,
            r@.buffer == Seq::new(23, |i: int| 0u8),
            r@.channels == Seq::new(16, |i: int| 1000u16),
            crsf_model_wf(r@),
    {
        let r = Self {
            state: State::WaitForAddressByte,
            frame: CrsfFrame { channels: [1000; 16] },
            buffer: [0u8; 23],
        };
        assert(r@.buffer =~= Seq::new(23, |i: int| 0u8));
        assert(r@.channels =~= Seq::new(16, |i: int| 1000u16));
        r
    }

    /// Feeds a single byte into the CRSF state machine.
    /// Returns the decoded frame on a successful CRC match of an RC channels packet.
    pub fn on_byte_received(&mut self, byte: u8) -> (r: Option<CrsfFrame>)
        ensures
            final(self)@ == crsf_step(old(self)@, byte).0,
            crsf_model_wf(final(self)@),
            match crsf_step(old(self)@, byte).1 {
                None => r is None,
                Some(channels) => r matches Some(f) && f.channels@ == channels,
            },
    {
        proof {
            use_type_invariant(&*self);
        }
        let mut should_parse = false;
        match self.state {
            State::WaitForAddressByte => {
                if byte == Self::ADDRESS_BYTE {
                    self.state = State::WaitLength;
                }
            },
            State::WaitLength => {
                if byte >= 3 && (byte as usize) <= CRSF_PAYLOAD_LEN + 2 {
                    self.state = State::ReadPayload { index: 0, expected_len: byte as usize };
                } else {
                    self.state = State::WaitForAddressByte;
                }
            },
            State::ReadPayload { index, expected_len } => {
                self.buffer[index] = byte;
                let next_index = index + 1;
                // The type and payload take `expected_len - 1` bytes.
                if next_index >= expected_len - 1 {
                    self.state = State::ValidateChecksum;
                } else {
                    self.state = State::ReadPayload { index: next_index, expected_len };
                }
            },
            State::ValidateChecksum => {
                let received_crc = byte;
                if CrcDvbS2::calculate(self.buffer.as_slice()) == received_crc && self.buffer[0]
                    == 0x16 {
                    should_parse = true;
                }
                self.state = State::WaitForAddressByte;
            },
        }
        if should_parse {
            self.frame.channels = Self::parse_channels(&self.buffer);
            return Some(self.frame);
        }
        None
    }

    /// Unpacks the 16 channels in bytes 1..23 of `buffer`.
    fn parse_channels(buffer: &[u8; 23]) -> (channels: [u16; 16])
        ensures
            channels@ == packed_channels_spec(buffer@.subrange(1, 23)),
    {
        let mut payload = [0u8; 22];
        let mut i: usize = 0;
        while i < 22
            invariant
                i <= 22,
                payload@.len() == 22,
                forall|j: int| 0 <= j < i ==> payload@[j] == buffer@[j + 1],
            decreases 22 - i,
        {
            payload[i] = buffer[i + 1];
            i += 1;
        }
        assert(payload@ =~= buffer@.subrange(1, 23));
        unpack_16_channels(&payload)
    }
}

/// Feeding `a` then `b` is feeding `a + b` (for non-empty `b`).
pub proof fn lemma_crsf_feed_append(m: CrsfModel, a: Seq<u8>, b: Seq<u8>)
    requires
        b.len() > 0,
    ensures
        crsf_feed(m, a + b) == crsf_feed(crsf_feed(m, a).0, b),
    decreases a.len(),
{
    if a.len() == 0 {
        assert(a + b =~= b);
    } else {
        assert((a + b)[0] == a[0]);
        assert((a + b).drop_first() =~= a.drop_first() + b);
        lemma_crsf_feed_append(crsf_step(m, a[0]).0, a.drop_first(), b);
        if a.len() == 1 {
            assert(a.drop_first() =~= Seq::<u8>::empty());
        }
    }
}

/// Feeding keeps a decoder state well formed.
pub proof fn lemma_crsf_feed_keeps_wf(m: CrsfModel, bytes: Seq<u8>)
    requires
        crsf_model_wf(m),
    ensures
        crsf_model_wf(crsf_feed(m, bytes).0),
    decreases bytes.len(),
{
    if bytes.len() > 1 {
        lemma_crsf_feed_keeps_wf(crsf_step(m, bytes[0]).0, bytes.drop_first());
    }
}

/// A standard RC channels packet: address 0xC8, length 24, type 0x16, 22 bytes of packed
/// channels, and the CRC of the type and payload bytes.
pub open spec fn is_crsf_rc_packet(packet: Seq<u8>) -> bool {
    &&& packet.len() == 26
    &&& packet[0] == 0xC8
    &&& packet[1] == 24
    &&& packet[2] == 0x16
}

/// What feeding a packet with address 0xC8, length 24 and type 0x16 from a waiting decoder
/// gives: the buffer holds its type and payload, and the channels are decoded exactly when
/// its last byte is the CRC of the type and payload bytes.
pub open spec fn crsf_packet_result(m: CrsfModel, packet: Seq<u8>) -> (CrsfModel, Option<Seq<u16>>) {
    let body = packet.subrange(2, 25);
    let channels = packed_channels_spec(packet.subrange(3, 25));
    if crc_bitwise_spec(body) == packet[25] {
        (
            CrsfModel { phase: CrsfPhase::WaitForAddressByte, buffer: body, channels },
            Some(channels),
        )
    } else {
        (CrsfModel { phase: CrsfPhase::WaitForAddressByte, buffer: body, channels: m.channels }, None)
    }
}

proof fn lemma_crsf_payload_suffix(m: CrsfModel, packet: Seq<u8>, k: int, buf: Seq<u8>)
    requires
        is_crsf_rc_packet(packet),
        0 <= k <= 22,
        buf.len() == 23,
        buf.take(k) == packet.subrange(2, 2 + k),
    ensures
        crsf_feed(
            CrsfModel {
                phase: CrsfPhase::ReadPayload { index: k as nat, expected_len: 24 },
                buffer: buf,
                channels: m.channels,
            },
            packet.skip(2 + k),
        ) == crsf_packet_result(m, packet),
    decreases 22 - k,
{
    let mk = CrsfModel {
        phase: CrsfPhase::ReadPayload { index: k as nat, expected_len: 24 },
        buffer: buf,
        channels: m.channels,
    };
    let buf2 = buf.update(k, packet[2 + k]);
    assert(buf2.take(k + 1) =~= packet.subrange(2, 2 + k + 1));
    assert(packet.skip(2 + k)[0] == packet[2 + k]);
    assert(packet.skip(2 + k).drop_first() =~= packet.skip(2 + k + 1));
    let next = crsf_step(mk, packet[2 + k]).0;
    assert(crsf_feed(mk, packet.skip(2 + k)) == crsf_feed(next, packet.skip(2 + k + 1)));
    if k < 22 {
        assert(next == CrsfModel {
            phase: CrsfPhase::ReadPayload { index: (k + 1) as nat, expected_len: 24 },
            buffer: buf2,
            channels: m.channels,
        });
        lemma_crsf_payload_suffix(m, packet, k + 1, buf2);
    } else {
        assert(buf2 =~= packet.subrange(2, 25));
        assert(buf2.subrange(1, 23) =~= packet.subrange(3, 25));
        assert(packet.skip(25) =~= seq![packet[25]]);
        assert(next == CrsfModel {
            phase: CrsfPhase::ValidateChecksum,
            buffer: buf2,
            channels: m.channels,
        });
        assert(crsf_feed(next, packet.skip(25)) == crsf_step(next, packet[25]));
    }
}

/// From a decoder waiting for an address byte, an RC channels packet (address 0xC8,
/// length 24, type 0x16) is decoded on its last byte exactly when that byte is the CRC of
/// its type and payload bytes; otherwise no frame is produced and the channels are kept.
pub proof fn lemma_crsf_packet_decodes(m: CrsfModel, packet: Seq<u8>)
    requires
        crsf_model_wf(m),
        m.phase == CrsfPhase::WaitForAddressByte,
        is_crsf_rc_packet(packet),
    ensures
        crsf_feed(m, packet) == crsf_packet_result(m, packet),
{
    let m1 = crsf_step(m, packet[0]).0;
    let m2 = crsf_step(m1, packet[1]).0;
    assert(packet.drop_first() =~= packet.skip(1));
    assert(packet.skip(1)[0] == packet[1]);
    assert(packet.skip(1).drop_first() =~= packet.skip(2));
    assert(crsf_feed(m, packet) == crsf_feed(m1, packet.skip(1)));
    assert(crsf_feed(m1, packet.skip(1)) == crsf_feed(m2, packet.skip(2)));
    assert(m.buffer.take(0) =~= packet.subrange(2, 2));
    lemma_crsf_payload_suffix(m, packet, 0, m.buffer);
}

/// Resynchronisation: whatever bytes came before, once the decoder is waiting for an
/// address byte again, a following RC channels packet with a correct CRC is decoded.
pub proof fn lemma_crsf_recovers_after_noise(m: CrsfModel, noise: Seq<u8>, packet: Seq<u8>)
    requires
        crsf_model_wf(m),
        crsf_feed(m, noise).0.phase == CrsfPhase::WaitForAddressByte,
        is_crsf_rc_packet(packet),
        crc_bitwise_spec(packet.subrange(2, 25)) == packet[25],
    ensures
        crsf_feed(m, noise + packet).1 == Some(packed_channels_spec(packet.subrange(3, 25))),
{
    lemma_crsf_feed_append(m, noise, packet);
    lemma_crsf_feed_keeps_wf(m, noise);
    lemma_crsf_packet_decodes(crsf_feed(m, noise).0, packet);
}

proof fn lemma_crsf_payload_and_crc_end_frame(m: CrsfModel, rest: Seq<u8>)
    requires
        crsf_model_wf(m),
        m.phase matches CrsfPhase::ReadPayload { index, expected_len } && rest.len() == expected_len
            - index,
    ensures
        crsf_feed(m, rest).0.phase == CrsfPhase::WaitForAddressByte,
        crsf_model_wf(crsf_feed(m, rest).0),
    decreases rest.len(),
{
    lemma_crsf_step_keeps_wf(m, rest[0]);
    let next = crsf_step(m, rest[0]).0;
    if let CrsfPhase::ReadPayload { index, expected_len } = m.phase {
        if index + 1 >= expected_len - 1 {
            assert(rest.len() == 2);
            assert(rest.drop_first()[0] == rest[1]);
            lemma_crsf_step_keeps_wf(next, rest[1]);
            assert(crsf_feed(next, rest.drop_first()) == crsf_step(next, rest[1]));
        } else {
            lemma_crsf_payload_and_crc_end_frame(next, rest.drop_first());
        }
    }
}

/// Framing: a decoder waiting for an address byte reads a whole CRSF frame, whatever its
/// type and contents, by its length byte: after the address byte 0xC8, a length byte `L`
/// in 3..=24 and the `L` bytes it counts (type, payload and CRC), it is waiting for an
/// address byte again.
pub proof fn lemma_crsf_frame_ends_at_its_length(m: CrsfModel, frame: Seq<u8>)
    requires
        crsf_model_wf(m),
        m.phase == CrsfPhase::WaitForAddressByte,
        frame.len() >= 2,
        frame[0] == 0xC8,
        3 <= frame[1] <= 24,
        frame.len() == frame[1] + 2,
    ensures
        crsf_feed(m, frame).0.phase == CrsfPhase::WaitForAddressByte,
        crsf_model_wf(crsf_feed(m, frame).0),
{
    let m1 = crsf_step(m, frame[0]).0;
    let m2 = crsf_step(m1, frame[1]).0;
    assert(frame.drop_first() =~= frame.skip(1));
    assert(frame.skip(1)[0] == frame[1]);
    assert(frame.skip(1).drop_first() =~= frame.skip(2));
    assert(crsf_feed(m, frame) == crsf_feed(m1, frame.skip(1)));
    assert(crsf_feed(m1, frame.skip(1)) == crsf_feed(m2, frame.skip(2)));
    lemma_crsf_payload_and_crc_end_frame(m2, frame.skip(2));
}

/// A valid RC channels packet that follows any whole CRSF frame (of any type and a length
/// byte in 3..=24, with any CRC) is decoded on its last byte.
pub proof fn lemma_crsf_decodes_after_any_frame(m: CrsfModel, frame: Seq<u8>, packet: Seq<u8>)
    requires
        crsf_model_wf(m),
        m.phase == CrsfPhase::WaitForAddressByte,
        frame.len() >= 2,
        frame[0] == 0xC8,
        3 <= frame[1] <= 24,
        frame.len() == frame[1] + 2,
        is_crsf_rc_packet(packet),
        crc_bitwise_spec(packet.subrange(2, 25)) == packet[25],
    ensures
        crsf_feed(m, frame + packet).1 == Some(packed_channels_spec(packet.subrange(3, 25))),
{
    lemma_crsf_frame_ends_at_its_length(m, frame);
    lemma_crsf_recovers_after_noise(m, frame, packet);
}

} // verus!
