//! CRSF payload parsing: packet payloads, channel unpacking and link statistics.
use vstd::prelude::*;
use crate::protocols::crc_dvb_s2::{CrcDvbS2, crc_bitwise_spec};
use crate::protocols::sbus_decoder::{byte_or_zero, packed_channel_spec, packed_channels_spec};
use crate::rx_channel::{RxChannels, failsafe_channel_values};

verus! {

/// A CRSF packet.
#[derive(Copy, Clone, Debug, PartialEq, Eq)]
pub enum CrsfPacket {
    Channels(RxChannels),
    LinkStatistics { rssi_dbm: u8, lq: u8, rf_mode: u8 },
    Battery {
        voltage: u16,  // deci-volts
        current: u16,  // deci-amps
    },
    Unknown(u8),
}

/// A packed channels payload.
pub type CrsfPayload = [u8; 22];

/// Big-endian 16-bit value of bytes `hi`, `lo`.
pub open spec fn be16(hi: u8, lo: u8) -> u16 {
    (hi * 256 + lo) as u16
}

/// The number of channels `unpack_crsf_channels` reads from `len` bytes: the whole 11-bit
/// fields that the bytes hold, at most 16.
pub open spec fn unpacked_count(len: int) -> int {
    if (8 * len) / 11 >= 16 {
        16
    } else {
        (8 * len) / 11
    }
}


/// Bit `t` of a 16-bit value (false outside 0..16).
pub open spec fn bit_of_u16(x: u16, t: int) -> bool {
    0 <= t < 16 && ((x as u32) >> (t as u32)) & 1u32 == 1u32
}

/// Bit `t` of a byte (false outside 0..8).
pub open spec fn bit_of_u8(x: u8, t: int) -> bool {
    0 <= t < 8 && ((x as u32) >> (t as u32)) & 1u32 == 1u32
}

/// Bit `t` of a 32-bit value (false outside 0..32).
pub open spec fn bit_of_u32(x: u32, t: int) -> bool {
    0 <= t < 32 && (x >> (t as u32)) & 1u32 == 1u32
}

/// Bit `b` of the bit string made by laying the first `k` channels of `ch` at bit offsets
/// 0, 11, 22, ... and or-ing them together: set when some channel `j < k` has bit
/// `b - 11 * j` set.
pub open spec fn laid_out_bit(ch: Seq<u16>, k: int, b: int) -> bool
    decreases k,
{
    if k <= 0 {
        false
    } else {
        laid_out_bit(ch, k - 1, b) || bit_of_u16(ch[k - 1], b - 11 * (k - 1))
    }
}

/// Whether `p` is the 22-byte payload that packs the sixteen channels `ch`: bit `t` of byte
/// `i` is bit `8 * i + t` of the channels laid out 11 bits apart, least significant bit first.
pub open spec fn is_crsf_packing_of(p: Seq<u8>, ch: Seq<u16>) -> bool {
    &&& p.len() == 22
    &&& forall|i: int, t: int|
        0 <= i < 22 && 0 <= t < 8 ==> #[trigger] bit_of_u8(p[i], t) == laid_out_bit(ch, 16, 8 * i + t)
}

/// Or-ing a 16-bit value shifted left by `c < 8` into `bits`: bits below `c` are unchanged.
proof fn lemma_or_shift_low_bit(bits: u32, x: u32, c: u32, t: u32)
    by (bit_vector)
    requires
        x < 0x10000,
        t < c,
        c < 8,
    ensures
        ((bits | (x << c)) >> t) & 1u32 == (bits >> t) & 1u32,
{
}

/// Or-ing a 16-bit value shifted left by `c < 8` into `bits`: bit `c + s` is set when it was
/// set in `bits` or bit `s` of the value is set.
proof fn lemma_or_shift_high_bit(bits: u32, x: u32, c: u32, s: u32)
    by (bit_vector)
    requires
        x < 0x10000,
        c < 8,
        c + s < 32,
    ensures
        (((bits | (x << c)) >> (c + s)) & 1u32 == 1u32) == (((bits >> (c + s)) & 1u32 == 1u32)
            || (s < 16 && (x >> s) & 1u32 == 1u32)),
{
}

/// The low byte of a 32-bit value keeps its low eight bits.
proof fn lemma_low_byte_bit(bits: u32, t: u32)
    by (bit_vector)
    requires
        t < 8,
    ensures
        (((bits as u8) as u32) >> t) & 1u32 == (bits >> t) & 1u32,
{
}

/// Shifting right by 8 moves bit `t + 8` to bit `t` and clears the top byte.
proof fn lemma_shift_byte_bit(bits: u32, t: u32)
    by (bit_vector)
    requires
        t < 32,
    ensures
        ((bits >> 8u32) >> t) & 1u32 == if t < 24 {
            (bits >> (t + 8)) & 1u32
        } else {
            0u32
        },
{
}

/// The bits of channels laid out below `k` stop before bit `11 * k + 5`.
proof fn lemma_laid_out_bit_bound(ch: Seq<u16>, k: int, b: int)
    requires
        b >= 11 * k + 5,
    ensures
        !laid_out_bit(ch, k, b),
    decreases k,
{
    if k > 0 {
        lemma_laid_out_bit_bound(ch, k - 1, b);
    }
}


/// A channel below 2048 has no bit set from bit 11 up.
proof fn lemma_small_value_high_bit(x: u32, t: u32)
    by (bit_vector)
    requires
        x < 2048,
        11 <= t,
    ensures
        (x >> t) & 1u32 == 0u32,
{
}

/// Bit `t` of the 11-bit field at bit offset `s` of a three-byte window is bit `s + t` of the
/// window, taken from the byte that holds it.
proof fn lemma_window_field_bit(b0: u32, b1: u32, b2: u32, s: u32, t: u32)
    by (bit_vector)
    requires
        b0 < 256,
        b1 < 256,
        b2 < 256,
        s < 8,
        t < 11,
    ensures
        ((((b0 | (b1 << 8u32) | (b2 << 16u32)) >> s) & 0x7FFu32) >> t) & 1u32 == if s + t < 8 {
            (b0 >> (s + t)) & 1u32
        } else if s + t < 16 {
            (b1 >> ((s + t - 8) as u32)) & 1u32
        } else {
            (b2 >> ((s + t - 16) as u32)) & 1u32
        },
{
}

/// Whether bit `t` of `x` and of `y` are equal.
spec fn same_bit(x: u32, y: u32, t: int) -> bool {
    ((x >> (t as u32)) & 1u32 == 1u32) == ((y >> (t as u32)) & 1u32 == 1u32)
}

/// Two 11-bit values with the same eleven bits are equal.
proof fn lemma_eleven_bits_equal(x: u32, y: u32)
    by (bit_vector)
    requires
        x < 2048,
        y < 2048,
        ((x >> 0u32) & 1u32 == 1u32) == ((y >> 0u32) & 1u32 == 1u32),
        ((x >> 1u32) & 1u32 == 1u32) == ((y >> 1u32) & 1u32 == 1u32),
        ((x >> 2u32) & 1u32 == 1u32) == ((y >> 2u32) & 1u32 == 1u32),
        ((x >> 3u32) & 1u32 == 1u32) == ((y >> 3u32) & 1u32 == 1u32),
        ((x >> 4u32) & 1u32 == 1u32) == ((y >> 4u32) & 1u32 == 1u32),
        ((x >> 5u32) & 1u32 == 1u32) == ((y >> 5u32) & 1u32 == 1u32),
        ((x >> 6u32) & 1u32 == 1u32) == ((y >> 6u32) & 1u32 == 1u32),
        ((x >> 7u32) & 1u32 == 1u32) == ((y >> 7u32) & 1u32 == 1u32),
        ((x >> 8u32) & 1u32 == 1u32) == ((y >> 8u32) & 1u32 == 1u32),
        ((x >> 9u32) & 1u32 == 1u32) == ((y >> 9u32) & 1u32 == 1u32),
        ((x >> 10u32) & 1u32 == 1u32) == ((y >> 10u32) & 1u32 == 1u32),
    ensures
        x == y,
{
}

/// When the first `m` channels are below 2048, nothing is laid out from bit `11 * m` up.
proof fn lemma_laid_out_small_bound(ch: Seq<u16>, m: int, b: int)
    requires
        forall|j: int| 0 <= j < m ==> ch[j] < 2048,
        b >= 11 * m,
    ensures
        !laid_out_bit(ch, m, b),
    decreases m,
{
    if m > 0 {
        lemma_laid_out_small_bound(ch, m - 1, b);
        let t = b - 11 * (m - 1);
        if t < 16 {
            lemma_small_value_high_bit(ch[m - 1] as u32, t as u32);
        }
    }
}

/// When the first `m` channels are below 2048, bit `t < 11` of field `k < m` of the layout is
/// bit `t` of channel `k`.
proof fn lemma_laid_out_single(ch: Seq<u16>, m: int, k: int, t: int)
    requires
        forall|j: int| 0 <= j < m ==> ch[j] < 2048,
        0 <= k < m,
        0 <= t < 11,
    ensures
        laid_out_bit(ch, m, 11 * k + t) == bit_of_u16(ch[k], t),
    decreases m,
{
    if k == m - 1 {
        lemma_laid_out_small_bound(ch, m - 1, 11 * k + t);
    } else {
        lemma_laid_out_single(ch, m - 1, k, t);
    }
}

/// CRSF and SBUS share their channel packing: reading the 11-bit fields back from a payload
/// that packs sixteen channels below 2048 (as `unpack_crsf_channels` and the SBUS decoders do)
/// gives all sixteen channels back.
pub proof fn lemma_packed_channels_read_back(p: Seq<u8>, ch: Seq<u16>)
    requires
        ch.len() == 16,
        forall|j: int| 0 <= j < 16 ==> ch[j] < 2048,
        is_crsf_packing_of(p, ch),
    ensures
        packed_channels_spec(p) == ch,
        unpacked_count(p.len() as int) == 16,
        forall|c: int| 0 <= c < 16 ==> #[trigger] packed_channel_spec(p, c) == ch[c],
{
    assert forall|k: int| 0 <= k < 16 implies #[trigger] packed_channel_spec(p, k) == ch[k] by {
        let byte = (11 * k) / 8;
        let s = (11 * k) % 8;
        let b0 = byte_or_zero(p, byte);
        let b1 = byte_or_zero(p, byte + 1);
        let b2 = byte_or_zero(p, byte + 2);
        let window: u32 = b0 | (b1 << 8u32) | (b2 << 16u32);
        let shifted: u32 = window >> (s as u32);
        let field: u32 = shifted & 0x7FFu32;
        assert(field < 2048) by (bit_vector)
            requires
                field == shifted & 0x7FFu32,
        ;
        let x = ch[k] as u32;
        assert forall|t: int| 0 <= t < 11 implies #[trigger] same_bit(field, x, t) by {
            lemma_window_field_bit(b0, b1, b2, s as u32, t as u32);
            let pos = 11 * k + t;
            let i = pos / 8;
            let u = pos % 8;
            assert(0 <= i < 22);
            assert(bit_of_u8(p[i], u) == laid_out_bit(ch, 16, 8 * i + u));
            lemma_laid_out_single(ch, 16, k, t);
            assert(p.len() == 22);
            if s + t < 8 {
                assert(i == byte && u == s + t);
                assert(b0 == p[i] as u32);
            } else if s + t < 16 {
                assert(i == byte + 1 && u == s + t - 8);
                assert(b1 == p[i] as u32);
            } else {
                assert(i == byte + 2 && u == s + t - 16);
                assert(b2 == p[i] as u32);
            }
            assert(bit_of_u16(ch[k], t) == ((x >> (t as u32)) & 1u32 == 1u32));
            assert(((field >> (t as u32)) & 1u32 == 1u32) == bit_of_u8(p[i], u));
        }
        assert(same_bit(field, x, 0) && same_bit(field, x, 1) && same_bit(field, x, 2) && same_bit(
            field,
            x,
            3,
        ) && same_bit(field, x, 4) && same_bit(field, x, 5) && same_bit(field, x, 6) && same_bit(
            field,
            x,
            7,
        ) && same_bit(field, x, 8) && same_bit(field, x, 9) && same_bit(field, x, 10));
        lemma_eleven_bits_equal(field, x);
    }
    assert(packed_channels_spec(p) =~= ch);
}

#[derive(Copy, Clone, Debug, Default, PartialEq, Eq)]
pub struct CrsfParser {}

impl CrsfParser {
    pub const MAX_PACKET_SIZE: usize = 64;
    pub const PACKET_LENGTH: usize = 22;

    const PACKET_LENGTH_OFFSET: usize = 1;
    const PACKET_TYPE_OFFSET: usize = 2;
    const PACKET_DATA_OFFSET: usize = 3;

    // see https://github.com/crsf-wg/crsf/wiki/Packet-Types
    const FRAMETYPE_BATTERY_SENSOR: u8 = 0x08;
    const FRAMETYPE_RC_CHANNELS_PACKED: u8 = 0x16;
    const FRAMETYPE_FLIGHT_MODE: u8 = 0x21;

    /// Parses a payload of the given packet type: RC channels (0x16), link statistics
    /// (0x21: RSSI, LQ and RF mode from bytes 0, 1 and 3), battery (0x08: big-endian voltage
    /// and current); any other type is `Unknown`.
    pub fn parse_payload(packet_type: u8, payload: &[u8]) -> (r: CrsfPacket)
        requires
            packet_type == 0x21 || packet_type == 0x08 ==> payload.len() >= 4,
        ensures
            r == (if packet_type == 0x16 {
                CrsfPacket::Channels(r->Channels_0)
            } else if packet_type == 0x21 {
                CrsfPacket::LinkStatistics {
                    rssi_dbm: payload@[0],
                    lq: payload@[1],
                    rf_mode: payload@[3],
                }
            } else if packet_type == 0x08 {
                CrsfPacket::Battery {
                    voltage: be16(payload@[0], payload@[1]),
                    current: be16(payload@[2], payload@[3]),
                }
            } else {
                CrsfPacket::Unknown(packet_type)
            }),
            packet_type == 0x16 ==> r->Channels_0.0@ == failsafe_channel_values(),
    {
        if packet_type == Self::FRAMETYPE_RC_CHANNELS_PACKED {
            let channels = Self::parse_crsf_channels(payload);
            CrsfPacket::Channels(channels)
        } else if packet_type == Self::FRAMETYPE_FLIGHT_MODE {
            CrsfPacket::LinkStatistics { rssi_dbm: payload[0], lq: payload[1], rf_mode: payload[3] }
        } else if packet_type == Self::FRAMETYPE_BATTERY_SENSOR {
            // Big-endian packing: [Volt High] [Volt Low] [Curr High] [Curr Low] ...
            let voltage = (payload[0] as u16) * 256 + (payload[1] as u16);
            let current = (payload[2] as u16) * 256 + (payload[3] as u16);
            CrsfPacket::Battery { voltage, current }
        } else {
            CrsfPacket::Unknown(packet_type)
        }
    }

    /// The channels of an RC channels payload; channel extraction is not implemented, so this
    /// returns the failsafe channel values.
    pub fn parse_crsf_channels(_payload: &[u8]) -> (r: RxChannels)
        ensures
            r.0@ == failsafe_channel_values(),
    {
        RxChannels::default()
    }

    /// The CRC byte of a packet: the byte at index `length - 2`.
    fn received_crc(packet: [u8; 64]) -> (r: u8)
        requires
            2 <= packet@[1] <= 65,
        ensures
            r == packet@[packet@[1] - 2],
    {
        let packet_length = packet[Self::PACKET_LENGTH_OFFSET] as usize;
        packet[packet_length - 2]
    }


    /// Packs sixteen channels into a 22-byte payload, 11 bits per channel, least significant
    /// bit first. Bits of a channel above its 11-bit field are or-ed into the next fields.
    pub fn _pack_crsf_payload(channels: RxChannels) -> (r: CrsfPayload)
        ensures
            is_crsf_packing_of(r@, channels.0@),
    {
        let ghost ch = channels.0@;
        let mut bits: u32 = 0;
        let mut bit_count: u32 = 0;
        let mut bytes: CrsfPayload = [0u8; 22];
        let mut byte_idx: usize = 0;
        assert forall|t: int| 0 <= t < 32 implies !bit_of_u32(0u32, t) by {
            let tt = t as u32;
            assert((0u32 >> tt) & 1u32 == 0u32) by (bit_vector);
        }
        let mut k: usize = 0;
        while k < 16
            invariant
                k <= 16,
                ch == channels.0@,
                byte_idx <= 22,
                8 * byte_idx + bit_count == 11 * k,
                bit_count < 8 || byte_idx == 22,
                bytes@.len() == 22,
                forall|i: int, t: int|
                    0 <= i < byte_idx && 0 <= t < 8 ==> #[trigger] bit_of_u8(bytes@[i], t)
                        == laid_out_bit(ch, k as int, 8 * i + t),
                forall|t: int|
                    0 <= t < 32 ==> #[trigger] bit_of_u32(bits, t) == laid_out_bit(
                        ch,
                        k as int,
                        8 * byte_idx + t,
                    ),
            decreases 16 - k,
        {
            let ch_k = channels.0[k];
            let ghost old_bits = bits;
            let ghost c = bit_count;
            bits = bits | ((ch_k as u32) << bit_count);
            bit_count = bit_count + 11;
            assert forall|t: int| 0 <= t < 32 implies #[trigger] bit_of_u32(bits, t) == laid_out_bit(
                ch,
                k + 1,
                8 * byte_idx + t,
            ) by {
                let tt = t as u32;
                if t < c {
                    lemma_or_shift_low_bit(old_bits, ch_k as u32, c, tt);
                } else {
                    let s = (t - c) as u32;
                    lemma_or_shift_high_bit(old_bits, ch_k as u32, c, s);
                    assert(c + s == tt);
                }
                assert(bit_of_u32(old_bits, t) == laid_out_bit(ch, k as int, 8 * byte_idx + t));
            }
            assert forall|i: int, t: int|
                0 <= i < byte_idx && 0 <= t < 8 implies #[trigger] bit_of_u8(bytes@[i], t)
                    == laid_out_bit(ch, k + 1, 8 * i + t) by {
                assert(bit_of_u8(bytes@[i], t) == laid_out_bit(ch, k as int, 8 * i + t));
            }
            while bit_count >= 8 && byte_idx < 22
                invariant
                    k < 16,
                    ch == channels.0@,
                    byte_idx <= 22,
                    8 * byte_idx + bit_count == 11 * (k + 1),
                    bit_count <= 18,
                    bytes@.len() == 22,
                    forall|i: int, t: int|
                        0 <= i < byte_idx && 0 <= t < 8 ==> #[trigger] bit_of_u8(bytes@[i], t)
                            == laid_out_bit(ch, k + 1, 8 * i + t),
                    forall|t: int|
                        0 <= t < 32 ==> #[trigger] bit_of_u32(bits, t) == laid_out_bit(
                            ch,
                            k + 1,
                            8 * byte_idx + t,
                        ),
                decreases 22 - byte_idx,
            {
                let ghost old_bits = bits;
                let ghost old_bytes = bytes@;
                let ghost idx = byte_idx as int;
                bytes[byte_idx] = #[verifier::truncate] (bits as u8);
                bits = bits >> 8;
                bit_count = bit_count - 8;
                byte_idx = byte_idx + 1;
                assert forall|i: int, t: int|
                    0 <= i < byte_idx && 0 <= t < 8 implies #[trigger] bit_of_u8(bytes@[i], t)
                        == laid_out_bit(ch, k + 1, 8 * i + t) by {
                    if i < idx {
                        assert(bytes@[i] == old_bytes[i]);
                    } else {
                        lemma_low_byte_bit(old_bits, t as u32);
                        assert(bit_of_u32(old_bits, t) == laid_out_bit(ch, k + 1, 8 * idx + t));
                    }
                }
                assert forall|t: int| 0 <= t < 32 implies #[trigger] bit_of_u32(bits, t)
                    == laid_out_bit(ch, k + 1, 8 * byte_idx + t) by {
                    lemma_shift_byte_bit(old_bits, t as u32);
                    if t < 24 {
                        assert(bit_of_u32(old_bits, t + 8) == laid_out_bit(ch, k + 1, 8 * idx + t + 8));
                    } else {
                        lemma_laid_out_bit_bound(ch, k + 1, 8 * byte_idx + t);
                    }
                }
            }
            k = k + 1;
        }
        assert forall|i: int, t: int| 0 <= i < 22 && 0 <= t < 8 implies #[trigger] bit_of_u8(
            bytes@[i],
            t,
        ) == laid_out_bit(ch, 16, 8 * i + t) by {}
        bytes
    }

    /// Converts a packed payload into channels: channel `c` is the 11-bit field that starts at
    /// bit `11 * c` of `data`, least significant bit first (the packing of
    /// `_pack_crsf_payload`), for each whole field that `data` holds, at most 16; the other
    /// channels keep their failsafe values. Also returns the number of channels read.
    pub fn unpack_crsf_channels(data: &[u8]) -> (r: (RxChannels, usize))
        ensures
            r.1 == unpacked_count(data.len() as int),
            forall|c: int|
                0 <= c < 16 ==> #[trigger] r.0.0@[c] == if c < r.1 {
                    packed_channel_spec(data@, c)
                } else {
                    failsafe_channel_values()[c]
                },
    {
        let mut result = RxChannels::default();
        let mut bit_offset: usize = 0;
        let mut count: usize = 0;
        while count < 16
            invariant
                count <= 16,
                bit_offset == 11 * count,
                count <= unpacked_count(data.len() as int),
                forall|c: int|
                    0 <= c < 16 ==> #[trigger] result.0@[c] == if c < count {
                        packed_channel_spec(data@, c)
                    } else {
                        failsafe_channel_values()[c]
                    },
            ensures
                count == unpacked_count(data.len() as int),
                forall|c: int|
                    0 <= c < 16 ==> #[trigger] result.0@[c] == if c < count {
                        packed_channel_spec(data@, c)
                    } else {
                        failsafe_channel_values()[c]
                    },
            decreases 16 - count,
        {
            // The bytes that hold the next field, rounded up.
            let needed_bytes = (bit_offset + 11 + 7) / 8;
            if needed_bytes > data.len() {
                break;
            }
            let byte_idx = bit_offset / 8;
            let bit_idx = bit_offset % 8;
            let b0 = data[byte_idx] as u32;
            let b1: u32 = if byte_idx + 1 < data.len() {
                data[byte_idx + 1] as u32
            } else {
                0
            };
            let b2: u32 = if byte_idx + 2 < data.len() {
                data[byte_idx + 2] as u32
            } else {
                0
            };
            let window: u32 = b0 | (b1 << 8u32) | (b2 << 16u32);
            // Extract 11 bits.
            let value = ((window >> (bit_idx as u32)) & 0x7FFu32) as u16;
            assert(value == packed_channel_spec(data@, count as int));
            result.0[count] = value;
            bit_offset += 11;
            count += 1;
        }
        (result, count)
    }

    /// A CRSF packet always follows this pattern: `[Sync] [Length] [Type] [Payload...] [CRC]`,
    /// where the length counts everything from the type to the CRC.
    /// Returns the 22 bytes after the type byte when the CRC of the whole 64-byte buffer
    /// matches the packet's CRC byte and the type is RC channels (0x16); zeros otherwise.
    pub fn _unpack_packet(packet: [u8; 64]) -> (r: CrsfPayload)
        requires
            2 <= packet@[1] <= 65,
        ensures
            r@ == if crc_bitwise_spec(packet@) == packet@[packet@[1] - 2] && packet@[2] == 0x16 {
                packet@.subrange(3, 25)
            } else {
                Seq::new(22, |i: int| 0u8)
            },
    {
        if CrcDvbS2::calculate(packet.as_slice()) != Self::received_crc(packet) {
            let r = [0u8; 22];
            assert(r@ =~= Seq::new(22, |i: int| 0u8));
            return r;
        }
        let packet_type = packet[Self::PACKET_TYPE_OFFSET];
        if packet_type == Self::FRAMETYPE_RC_CHANNELS_PACKED {
            let mut data = [0u8; 22];
            let mut i: usize = 0;
            while i < 22
                invariant
                    i <= 22,
                    data@.len() == 22,
                    forall|j: int| 0 <= j < i ==> data@[j] == packet@[j + 3],
                decreases 22 - i,
            {
                data[i] = packet[Self::PACKET_DATA_OFFSET + i];
                i += 1;
            }
            assert(data@ =~= packet@.subrange(3, 25));
            return data;
        }
        let r = [0u8; 22];
        assert(r@ =~= Seq::new(22, |i: int| 0u8));
        r
    }
}

/// Link statistics reported by a CRSF receiver.
#[derive(Copy, Clone, Debug, PartialEq, Eq, Structural)]
pub struct CrsfLinkStatistics {
    pub uplink_rssi_dbm: i8,  // Usually -30 to -120
    pub uplink_lq: u8,  // 0 - 100
    pub uplink_snr: i8,  // Signal-to-Noise Ratio
    pub rf_mode: u8,  // 0=4Hz, 1=50Hz, 2=150Hz, etc.
    pub tx_power_mw: u16,  // Mapped from the power enum
    pub downlink_rssi_dbm: i8,
    pub downlink_lq: u8,
}

/// All-zero link statistics.
pub open spec fn zero_link_statistics() -> CrsfLinkStatistics {
    CrsfLinkStatistics {
        uplink_rssi_dbm: 0,
        uplink_lq: 0,
        uplink_snr: 0,
        rf_mode: 0,
        tx_power_mw: 0,
        downlink_rssi_dbm: 0,
        downlink_lq: 0,
    }
}

/// Transmit power in milliwatts of each power level code (0 for unknown codes).
pub open spec fn tx_power_mw_spec(val: u8) -> u16 {
    if val == 1 {
        10
    } else if val == 2 {
        25
    } else if val == 3 {
        100
    } else if val == 4 {
        500
    } else if val == 5 {
        1000
    } else if val == 6 {
        2000
    } else {
        0
    }
}

/// The CRSF uplink power levels: codes 1 to 6 stand for 10, 25, 100, 500, 1000 and 2000 mW,
/// the power grows with the code, and every other code stands for 0 mW.
pub proof fn lemma_tx_power_levels(val: u8)
    ensures
        tx_power_mw_spec(1) == 10,
        tx_power_mw_spec(2) == 25,
        tx_power_mw_spec(3) == 100,
        tx_power_mw_spec(4) == 500,
        tx_power_mw_spec(5) == 1000,
        tx_power_mw_spec(6) == 2000,
        val == 0 || val > 6 ==> tx_power_mw_spec(val) == 0,
        1 <= val < 6 ==> tx_power_mw_spec(val) < tx_power_mw_spec((val + 1) as u8),
        1 <= val <= 6 ==> 10 <= tx_power_mw_spec(val) <= 2000,
{
}

impl Default for CrsfLinkStatistics {
    fn default() -> (r: Self)
        ensures
            r == zero_link_statistics(),
    {
        Self::new()
    }
}

impl CrsfLinkStatistics {
    /// Constructor: all zero.
    pub fn new() -> (r: Self)
        ensures
            r == zero_link_statistics(),
    {
        Self {
            uplink_rssi_dbm: 0,
            uplink_lq: 0,
            uplink_snr: 0,
            rf_mode: 0,
            tx_power_mw: 0,
            downlink_rssi_dbm: 0,
            downlink_lq: 0,
        }
    }

    /// Parses a link statistics payload; a payload shorter than 10 bytes gives all zeros.
    /// CRSF sends RSSI as a positive value (e.g. 60 for -60 dBm), so it is negated; the
    /// RSSI bytes must not be 0x80, whose negation does not fit.
    pub fn parse(payload: &[u8]) -> (r: Self)
        requires
            payload.len() >= 10 ==> payload@[0] != 0x80 && payload@[7] != 0x80,
        ensures
            payload.len() < 10 ==> r == zero_link_statistics(),
            payload.len() >= 10 ==> r == (CrsfLinkStatistics {
                uplink_rssi_dbm: (-(payload@[0] as i8)) as i8,
                uplink_lq: payload@[2],
                uplink_snr: payload@[3] as i8,
                rf_mode: payload@[5],
                tx_power_mw: tx_power_mw_spec(payload@[6]),
                downlink_rssi_dbm: (-(payload@[7] as i8)) as i8,
                downlink_lq: payload@[8],
            }),
    {
        // Basic bounds check.
        if payload.len() < 10 {
            return Self::default();
        }
        let up = payload[0];
        let down = payload[7];
        assert((up as i8) != -128i8 && (down as i8) != -128i8) by (bit_vector)
            requires
                up != 0x80u8 && down != 0x80u8,
        ;
        Self {
            uplink_rssi_dbm: -(payload[0] as i8),
            uplink_lq: payload[2],
            uplink_snr: payload[3] as i8,
            rf_mode: payload[5],
            tx_power_mw: Self::map_tx_power(payload[6]),
            downlink_rssi_dbm: -(payload[7] as i8),
            downlink_lq: payload[8],
        }
    }

    fn map_tx_power(val: u8) -> (r: u16)
        ensures
            r == tx_power_mw_spec(val),
    {
        match val {
            1 => 10,
            2 => 25,
            3 => 100,
            4 => 500,
            5 => 1000,
            6 => 2000,
            _ => 0,
        }
    }
}

} // verus!
