//! Byte-at-a-time iBUS decoder.
use vstd::prelude::*;
use crate::rx_receiver::{RxFrame, RxLinkStatus};

verus! {

/// Sum of the bytes of `s`.
pub open spec fn byte_sum(s: Seq<u8>) -> nat
    decreases s.len(),
{
    if s.len() == 0 {
        0
    } else {
        byte_sum(s.drop_last()) + (s.last() as nat)
    }
}

/// Little-endian 16-bit value of bytes `lo`, `hi`.
pub open spec fn le16(lo: u8, hi: u8) -> u16 {
    (lo + 256 * hi) as u16
}

/// The iBUS checksum of a packet: 0xFFFF minus the sum of its first 30 bytes.
pub open spec fn ibus_checksum_spec(packet: Seq<u8>) -> int {
    0xFFFF - byte_sum(packet.take(30))
}

/// Whether the 32-byte `packet` carries a correct checksum in its last two bytes
/// (little-endian).
pub open spec fn ibus_checksum_ok(packet: Seq<u8>) -> bool {
    le16(packet[30], packet[31]) == ibus_checksum_spec(packet)
}

/// The 16 channel values decoded from a 32-byte iBUS packet: the 14 little-endian
/// channel values in bytes 2..30, followed by two zero channels.
pub open spec fn ibus_channels_spec(packet: Seq<u8>) -> Seq<u16> {
    Seq::new(
        16,
        |i: int|
            if i < 14 {
                le16(packet[2 + 2 * i], packet[3 + 2 * i])
            } else {
                0u16
            },
    )
}

/// Whether `f` is the frame decoded from the 32-byte iBUS `packet`: its channels, link
/// status `Failsafe` when the throttle channel (2) is below 950 and `Okay` otherwise, RSSI 0.
pub open spec fn is_ibus_frame_of(f: RxFrame, packet: Seq<u8>) -> bool {
    &&& f.channels@ == ibus_channels_spec(packet)
    &&& f.status == (if ibus_channels_spec(packet)[2] < 950 {
        RxLinkStatus::Failsafe
    } else {
        RxLinkStatus::Okay
    })
    &&& f.rssi == 0
}

/// Which frame an iBUS step outputs.
pub enum IbusOutput {
    /// No frame completed with this byte.
    Nothing,
    /// A packet with a correct checksum completed with this byte.
    Frame(Seq<u8>),
}

/// One step of the iBUS decoder. `pending` is the part of the current packet received so
/// far. An iBUS packet is 32 bytes: size 0x20, command 0x40, 14 little-endian channels and
/// a little-endian checksum. A byte that breaks the header is dropped.
pub open spec fn ibus_step(pending: Seq<u8>, byte: u8) -> (Seq<u8>, IbusOutput) {
    if pending.len() == 0 {
        if byte == 0x20 {
            (seq![byte], IbusOutput::Nothing)
        } else {
            (seq![], IbusOutput::Nothing)
        }
    } else if pending.len() == 1 {
        if byte == 0x40 {
            (pending.push(byte), IbusOutput::Nothing)
        } else {
            (seq![], IbusOutput::Nothing)
        }
    } else if pending.len() < 31 {
        (pending.push(byte), IbusOutput::Nothing)
    } else if ibus_checksum_ok(pending.push(byte)) {
        (seq![], IbusOutput::Frame(pending.push(byte)))
    } else {
        (seq![], IbusOutput::Nothing)
    }
}

/// The pending bytes and output after feeding `bytes` one by one from `pending`;
/// the output is that of the last byte.
pub open spec fn ibus_feed(pending: Seq<u8>, bytes: Seq<u8>) -> (Seq<u8>, IbusOutput)
    decreases bytes.len(),
{
    if bytes.len() == 0 {
        (pending, IbusOutput::Nothing)
    } else if bytes.len() == 1 {
        ibus_step(pending, bytes[0])
    } else {
        ibus_feed(ibus_step(pending, bytes[0]).0, bytes.drop_first())
    }
}

#[derive(Clone, Copy, Debug, PartialEq, Eq)]
enum State {
    WaitForSizeByte,
    WaitForCommandByte,
    ReadPayload { index: usize, checksum: u16 },
    ValidateChecksum { checksum: u16, is_first_byte: bool, checksum_first_byte: u8 },
}

/// The iBUS protocol (by FlySky/Turnigy).
/// It is not inverted and uses a straightforward "Sum of Bytes" checksum.
///
/// It operates at 115,200 baud with a 32-byte packet transmitted every 7ms.
///
/// Packet Structure (32 Bytes)
/// Each packet contains 14 channels, each represented by a 16-bit value (2 bytes) in Little-Endian format.
///    Byte 0: Header 0x20 (Size)
///    Byte 1: Command/Type 0x40 (for RC channels)
///    Bytes 2–29: 14 Channels (2 bytes each, Little-Endian)
///    Bytes 30–31: Checksum (2 bytes, Little-Endian).
#[derive(Clone, Copy, Debug, PartialEq, Eq)]
pub struct IbusDecoder {
    state: State,
    buffer: [u8; 28],
}

impl IbusDecoder {
    #[verifier::type_invariant]
    spec fn inv(self) -> bool {
        &&& self.buffer@.len() == 28
        &&& match self.state {
            State::ReadPayload { index, checksum } => index < 28 && checksum == 0xFFFF - byte_sum(
                self@,
            ),
            State::ValidateChecksum { checksum, .. } => checksum == 0xFFFF - byte_sum(
                self@.take(30),
            ),
            _ => true,
        }
    }
}

impl View for IbusDecoder {
    type V = Seq<u8>;

    /// The bytes of the packet received so far.
    closed spec fn view(&self) -> Seq<u8> {
        match self.state {
            State::WaitForSizeByte => seq![],
            State::WaitForCommandByte => seq![0x20u8],
            State::ReadPayload { index, .. } => seq![0x20u8, 0x40u8] + self.buffer@.take(
                index as int,
            ),
            State::ValidateChecksum { is_first_byte, checksum_first_byte, .. } => if is_first_byte {
                seq![0x20u8, 0x40u8] + self.buffer@
            } else {
                (seq![0x20u8, 0x40u8] + self.buffer@).push(checksum_first_byte)
            },
        }
    }
}

proof fn lemma_byte_sum_bound(s: Seq<u8>)
    ensures
        byte_sum(s) <= 255 * s.len(),
    decreases s.len(),
{
    if s.len() > 0 {
        lemma_byte_sum_bound(s.drop_last());
    }
}

impl Default for IbusDecoder {
    fn default() -> (r: Self)
        ensures
            r@ == Seq::<u8>::empty(),
    {
        Self::new()
    }
}

impl IbusDecoder {
    pub const CHANNEL_COUNT: usize = 14;
    pub const BUFFER_SIZE: usize = 28;

    /// A decoder waiting for a packet's size byte.
    #[must_use]
    pub fn new() -> (r: Self)
        ensures
            r@ == Seq::<u8>::empty(),
    {
        Self { state: State::WaitForSizeByte, buffer: [0; 28] }
    }

    /// Processes a single byte incoming from the UART interface.
    /// Returns a frame only when a complete packet passes checksum validation.
    pub fn on_byte_received(&mut self, byte: u8) -> (r: Option<RxFrame>)
        ensures
            final(self)@ == ibus_step(old(self)@, byte).0,
            match ibus_step(old(self)@, byte).1 {
                IbusOutput::Nothing => r is None,
                IbusOutput::Frame(packet) => r matches Some(f) && is_ibus_frame_of(f, packet),
            },
    {
        proof {
            use_type_invariant(&*self);
        }
        let ghost pending = self@;
        let mut complete = false;
        match self.state {
            State::WaitForSizeByte => {
                if byte == 0x20 {
                    self.state = State::WaitForCommandByte;
                    assert(self@ =~= seq![byte]);
                }
            },
            State::WaitForCommandByte => {
                if byte == 0x40 {
                    // The iBUS checksum is the one's complement of the sum of the first 30 bytes:
                    // start with 0xFFFF and subtract every byte, here the size and command bytes.
                    let checksum: u16 = 0xFFFF - 0x20 - 0x40;
                    assert(seq![0x20u8, 0x40u8] + self.buffer@.take(0) =~= seq![0x20u8, 0x40u8]);
                    assert(byte_sum(seq![0x20u8, 0x40u8]) == 0x60) by {
                        assert(seq![0x20u8].drop_last() =~= Seq::<u8>::empty());
                        assert(byte_sum(Seq::<u8>::empty()) == 0);
                        assert(byte_sum(seq![0x20u8]) == 0x20);
                        assert(seq![0x20u8, 0x40u8].drop_last() =~= seq![0x20u8]);
                    }
                    self.state = State::ReadPayload { index: 0, checksum };
                } else {
                    self.state = State::WaitForSizeByte;
                }
            },
            State::ReadPayload { index, checksum } => {
                proof {
                    lemma_byte_sum_bound(pending.push(byte));
                    assert(pending.push(byte).drop_last() =~= pending);
                }
                let checksum = checksum - byte as u16;
                let ghost old_buf = self.buffer@;
                assert(old_buf.update(index as int, byte).take(index as int) =~= old_buf.take(
                    index as int,
                ));
                self.buffer[index] = byte;
                let index = index + 1;
                assert(seq![0x20u8, 0x40u8] + self.buffer@.take(index as int) =~= pending.push(
                    byte,
                ));
                if index >= 28 {
                    assert(self.buffer@.take(28) =~= self.buffer@);
                    assert((seq![0x20u8, 0x40u8] + self.buffer@).take(30) =~= pending.push(byte));
                    self.state = State::ValidateChecksum {
                        checksum,
                        is_first_byte: true,
                        checksum_first_byte: 0,
                    };
                    assert(self.buffer@.take(28) =~= self.buffer@);
                    assert(self@.take(30) =~= self@);
                } else {
                    self.state = State::ReadPayload { index, checksum };
                }
            },
            State::ValidateChecksum { checksum, is_first_byte, checksum_first_byte } => {
                if is_first_byte {
                    assert((seq![0x20u8, 0x40u8] + self.buffer@).push(byte).take(30) =~= (seq![
                        0x20u8,
                        0x40u8,
                    ] + self.buffer@).take(30));
                    self.state = State::ValidateChecksum {
                        checksum,
                        is_first_byte: false,
                        checksum_first_byte: byte,
                    };
                    assert(self@.take(30) =~= pending.take(30));
                } else {
                    // Captured the second checksum byte.
                    let checksum_received = (checksum_first_byte as u16) + (byte as u16) * 256;
                    assert(pending.push(byte).take(30) =~= pending.take(30));
                    if checksum == checksum_received {
                        complete = true;
                    }
                    // Wait for the next packet, whether or not the checksum matched.
                    self.state = State::WaitForSizeByte;
                }
            },
        }
        if complete {
            let mut channels = [0u16; 16];
            let mut ii: usize = 0;
            while ii < 14
                invariant
                    ii <= 14,
                    channels@.len() == 16,
                    self.buffer@.len() == 28,
                    pending.len() == 31,
                    pending == (seq![0x20u8, 0x40u8] + self.buffer@).push(pending[30]),
                    forall|j: int| 0 <= j < ii ==> channels@[j] == ibus_channels_spec(pending.push(byte))[j],
                    forall|j: int| 14 <= j < 16 ==> channels@[j] == 0,
                decreases 14 - ii,
            {
                channels[ii] = (self.buffer[2 * ii] as u16) + (self.buffer[2 * ii + 1] as u16) * 256;
                ii += 1;
            }
            assert(channels@ =~= ibus_channels_spec(pending.push(byte)));
            let link_status = if channels[2] < 950 {
                RxLinkStatus::Failsafe
            } else {
                RxLinkStatus::Okay
            };
            Some(RxFrame { channels, status: link_status, rssi: 0 })
        } else {
            None
        }
    }
}

/// Feeding `a` then `b` is feeding `a + b` (for non-empty `b`).
pub proof fn lemma_ibus_feed_append(pending: Seq<u8>, a: Seq<u8>, b: Seq<u8>)
    requires
        b.len() > 0,
    ensures
        ibus_feed(pending, a + b) == ibus_feed(ibus_feed(pending, a).0, b),
    decreases a.len(),
{
    if a.len() == 0 {
        assert(a + b =~= b);
    } else {
        assert((a + b)[0] == a[0]);
        assert((a + b).drop_first() =~= a.drop_first() + b);
        lemma_ibus_feed_append(ibus_step(pending, a[0]).0, a.drop_first(), b);
        if a.len() == 1 {
            assert(a.drop_first() =~= Seq::<u8>::empty());
        }
    }
}

proof fn lemma_ibus_packet_suffix(packet: Seq<u8>, n: int)
    requires
        packet.len() == 32,
        packet[0] == 0x20,
        packet[1] == 0x40,
        2 <= n <= 31,
    ensures
        ibus_feed(packet.take(n), packet.skip(n)) == (
            Seq::<u8>::empty(),
            if ibus_checksum_ok(packet) {
                IbusOutput::Frame(packet)
            } else {
                IbusOutput::Nothing
            },
        ),
    decreases 31 - n,
{
    assert(packet.take(n).push(packet[n]) =~= packet.take(n + 1));
    if n < 31 {
        assert(packet.skip(n).drop_first() =~= packet.skip(n + 1));
        lemma_ibus_packet_suffix(packet, n + 1);
    } else {
        assert(packet.take(32) =~= packet);
    }
}

/// From a decoder waiting for a packet, a 32-byte packet with the header 0x20 0x40 yields,
/// on its last byte, a frame exactly when its checksum is correct (no frame otherwise);
/// the decoder then waits for the next packet.
pub proof fn lemma_ibus_packet_decodes(packet: Seq<u8>)
    requires
        packet.len() == 32,
        packet[0] == 0x20,
        packet[1] == 0x40,
    ensures
        ibus_feed(Seq::<u8>::empty(), packet) == (
            Seq::<u8>::empty(),
            if ibus_checksum_ok(packet) {
                IbusOutput::Frame(packet)
            } else {
                IbusOutput::Nothing
            },
        ),
{
    assert(seq![packet[0]] =~= packet.take(1));
    assert(packet.take(1).push(packet[1]) =~= packet.take(2));
    assert(packet.drop_first() =~= packet.skip(1));
    assert(packet.skip(1).drop_first() =~= packet.skip(2));
    assert(ibus_step(Seq::<u8>::empty(), packet[0]).0 == packet.take(1));
    assert(ibus_feed(Seq::<u8>::empty(), packet) == ibus_feed(packet.take(1), packet.skip(1)));
    assert(packet.skip(1)[0] == packet[1]);
    assert(ibus_step(packet.take(1), packet[1]).0 == packet.take(2));
    assert(ibus_feed(packet.take(1), packet.skip(1)) == ibus_feed(packet.take(2), packet.skip(2)));
    lemma_ibus_packet_suffix(packet, 2);
}

/// Resynchronisation: whatever bytes came before, once the decoder is waiting for a packet
/// again, a following valid packet (header 0x20 0x40, correct checksum) is decoded.
pub proof fn lemma_ibus_recovers_after_noise(pending: Seq<u8>, noise: Seq<u8>, packet: Seq<u8>)
    requires
        ibus_feed(pending, noise).0 == Seq::<u8>::empty(),
        packet.len() == 32,
        packet[0] == 0x20,
        packet[1] == 0x40,
        ibus_checksum_ok(packet),
    ensures
        ibus_feed(pending, noise + packet) == (Seq::<u8>::empty(), IbusOutput::Frame(packet)),
{
    lemma_ibus_feed_append(pending, noise, packet);
    lemma_ibus_packet_decodes(packet);
}

} // verus!
