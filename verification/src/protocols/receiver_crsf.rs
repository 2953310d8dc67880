//! Interrupt-driven CRSF packet collection into a 64-byte packet buffer.
use vstd::prelude::*;
use vstd::std_specs::convert::FromSpecImpl;
use crate::protocols::receiver_serial::ReceiverSerial;
use crate::rx_receiver::{RxFrame, RxLinkStatus, RxReceiverCommon};

verus! {

/// The packet-collection state of an interrupt-driven CRSF receiver.
pub struct CrsfIsrModel {
    /// Index in the packet of the next byte.
    pub index: nat,
    /// Expected packet size (length byte + 2), or 0 before the length byte.
    pub size: nat,
    pub packet_type: u8,
    /// The packet being written.
    pub packet_isr: Seq<u8>,
    /// The last complete packet.
    pub packet: Seq<u8>,
    pub packet_is_empty: bool,
}

/// One byte received in the interrupt handler, from state `m` (with `m.index < 64`).
/// A packet starts with a sync byte (0xC8 or 0xEE); any other byte in that position is
/// dropped and marks the packet empty. Byte 1 is the length (the packet size is the length
/// + 2), byte 2 the type. When the packet size is reached the packet is copied out and
/// `true` is returned.
pub open spec fn crsf_isr_step(m: CrsfIsrModel, data: u8) -> (CrsfIsrModel, bool) {
    if m.index == 0 && data != 0xC8 && data != 0xEE {
        (CrsfIsrModel { packet_is_empty: true, ..m }, false)
    } else {
        let size: nat = if m.index == 1 {
            (data + 2) as nat
        } else {
            m.size
        };
        let packet_type = if m.index == 2 {
            data
        } else {
            m.packet_type
        };
        let isr = m.packet_isr.update(m.index as int, data);
        if size != 0 && m.index + 1 == size {
            (CrsfIsrModel { index: 0, size: 0, packet_type, packet_isr: isr, packet: isr, ..m }, true)
        } else {
            (CrsfIsrModel { index: m.index + 1, size, packet_type, packet_isr: isr, ..m }, false)
        }
    }
}

/// Feeding `bytes` to the interrupt handler one at a time: the final state, and what each
/// call returned.
pub open spec fn crsf_isr_feed(m: CrsfIsrModel, bytes: Seq<u8>) -> (CrsfIsrModel, Seq<bool>)
    decreases bytes.len(),
{
    if bytes.len() == 0 {
        (m, Seq::empty())
    } else {
        let first = crsf_isr_step(m, bytes[0]);
        let rest = crsf_isr_feed(first.0, bytes.drop_first());
        (rest.0, seq![first.1] + rest.1)
    }
}

/// Whether `p` is a packet as the interrupt handler frames it: a sync byte (0xC8 or 0xEE),
/// then a length byte that counts the bytes after it, all within the 64-byte buffer.
pub open spec fn is_isr_packet(p: Seq<u8>) -> bool {
    &&& 2 <= p.len() <= 64
    &&& p[0] == 0xC8 || p[0] == 0xEE
    &&& p[1] + 2 == p.len()
}

/// The 64-byte buffer `buf` with its first `k` bytes replaced by those of `p`.
pub open spec fn isr_buffer_with(buf: Seq<u8>, p: Seq<u8>, k: int) -> Seq<u8> {
    Seq::new(64, |i: int| if i < k { p[i] } else { buf[i] })
}

/// The state of an idle handler `m0` after the first `k` bytes of packet `p`.
spec fn isr_partial(m0: CrsfIsrModel, p: Seq<u8>, k: int) -> CrsfIsrModel {
    CrsfIsrModel {
        index: k as nat,
        size: if k >= 2 { p.len() } else { 0 },
        packet_type: if k >= 3 { p[2] } else { m0.packet_type },
        packet_isr: isr_buffer_with(m0.packet_isr, p, k),
        packet: m0.packet,
        packet_is_empty: m0.packet_is_empty,
    }
}

/// The state of an idle handler `m0` after the whole packet `p`.
pub open spec fn isr_after_packet(m0: CrsfIsrModel, p: Seq<u8>) -> CrsfIsrModel {
    CrsfIsrModel {
        index: 0,
        size: 0,
        packet_type: if p.len() >= 3 { p[2] } else { m0.packet_type },
        packet_isr: isr_buffer_with(m0.packet_isr, p, p.len() as int),
        packet: isr_buffer_with(m0.packet_isr, p, p.len() as int),
        packet_is_empty: m0.packet_is_empty,
    }
}

proof fn lemma_isr_packet_suffix(m0: CrsfIsrModel, p: Seq<u8>, k: int)
    requires
        m0.packet_isr.len() == 64,
        is_isr_packet(p),
        0 <= k < p.len(),
    ensures
        crsf_isr_feed(isr_partial(m0, p, k), p.skip(k)) == (
            isr_after_packet(m0, p),
            Seq::new((p.len() - k) as nat, |i: int| i == p.len() - 1 - k),
        ),
    decreases p.len() - k,
{
    let mk = isr_partial(m0, p, k);
    let step = crsf_isr_step(mk, p[k]);
    assert(p.skip(k)[0] == p[k]);
    assert(p.skip(k).drop_first() =~= p.skip(k + 1));
    assert(mk.packet_isr.update(k, p[k]) =~= isr_buffer_with(m0.packet_isr, p, k + 1));
    if k + 1 == p.len() {
        assert(step == (isr_after_packet(m0, p), true));
        assert(p.skip(k + 1) =~= Seq::<u8>::empty());
        assert(crsf_isr_feed(step.0, p.skip(k + 1)) == (step.0, Seq::<bool>::empty()));
        assert(crsf_isr_feed(mk, p.skip(k)).1 =~= Seq::new(
            (p.len() - k) as nat,
            |i: int| i == p.len() - 1 - k,
        ));
    } else {
        assert(step == (isr_partial(m0, p, k + 1), false));
        lemma_isr_packet_suffix(m0, p, k + 1);
        assert(crsf_isr_feed(mk, p.skip(k)).1 =~= Seq::new(
            (p.len() - k) as nat,
            |i: int| i == p.len() - 1 - k,
        ));
    }
}

/// Collecting a packet: from an idle handler (at index 0 with no packet size), a packet
/// is complete exactly on its last byte; it then stands at the start of the interrupt
/// buffer and in the copy made of it, its type byte is recorded, and the handler is idle
/// again.
pub proof fn lemma_crsf_isr_collects_packet(m: CrsfIsrModel, p: Seq<u8>)
    requires
        m.index == 0,
        m.size == 0,
        m.packet_isr.len() == 64,
        is_isr_packet(p),
    ensures
        crsf_isr_feed(m, p) == (
            isr_after_packet(m, p),
            Seq::new(p.len(), |i: int| i == p.len() - 1),
        ),
{
    assert(isr_buffer_with(m.packet_isr, p, 0) =~= m.packet_isr);
    assert(isr_partial(m, p, 0) == m);
    assert(p.skip(0) =~= p);
    lemma_isr_packet_suffix(m, p, 0);
}

/// A CRSF frame: channels, failsafe and frame-lost flags, RSSI.
pub struct CrsfFrame {
    pub channels: [u16; 16],
    pub failsafe: bool,
    pub frame_lost: bool,
    pub rssi: u8,
}

impl CrsfFrame {
    pub const CHANNEL_COUNT: usize = 16;
}

/// The link status of a CRSF frame: `Failsafe`, else `NoSignal` when the frame is lost,
/// else `Okay`.
pub open spec fn receiver_crsf_frame_link_status(frame: CrsfFrame) -> RxLinkStatus {
    if frame.failsafe {
        RxLinkStatus::Failsafe
    } else if frame.frame_lost {
        RxLinkStatus::NoSignal
    } else {
        RxLinkStatus::Okay
    }
}

impl From<CrsfFrame> for RxFrame {
    fn from(frame: CrsfFrame) -> (r: Self)
        ensures
            r.channels == frame.channels,
            r.status == receiver_crsf_frame_link_status(frame),
            r.rssi == frame.rssi,
    {
        let status = if frame.failsafe {
            RxLinkStatus::Failsafe
        } else if frame.frame_lost {
            RxLinkStatus::NoSignal
        } else {
            RxLinkStatus::Okay
        };
        RxFrame { channels: frame.channels, status, rssi: frame.rssi }
    }
}

impl FromSpecImpl<CrsfFrame> for RxFrame {
    open spec fn obeys_from_spec() -> bool {
        true
    }

    open spec fn from_spec(frame: CrsfFrame) -> RxFrame {
        RxFrame {
            channels: frame.channels,
            status: receiver_crsf_frame_link_status(frame),
            rssi: frame.rssi,
        }
    }
}

/// Crossfire receiver.
#[derive(Clone, Copy, Debug, PartialEq)]
pub struct CrsfReceiver {
    common: RxReceiverCommon,
    serial: ReceiverSerial,
    channels: [u16; 16],
    packet_size: usize,
    packet_type: u8,
    // The packet is: byte 0 sync; byte 1 length (of type, payload and CRC); byte 2 type;
    // 22 bytes of payload (11 bits per channel * 16 channels); CRC byte.
    packet_isr: [u8; 64],  // packet data written here in the interrupt handler
    packet: [u8; 64],  // copy of the packet used outside of the interrupt handler
}

impl CrsfReceiver {
    #[verifier::type_invariant]
    spec fn inv(self) -> bool {
        self.serial.start_time == 0
    }

    /// The receiver's common bookkeeping.
    pub closed spec fn receiver_common(&self) -> RxReceiverCommon {
        self.common
    }

    /// The channel values of the receiver.
    pub closed spec fn channel_values(&self) -> Seq<u16> {
        self.channels@
    }

    /// The serial bookkeeping that the packet model leaves out: the packet start time (always
    /// 0, as the handler has no clock), and the received and error packet counts.
    pub closed spec fn serial_bookkeeping(&self) -> (u32, u32, i32) {
        (self.serial.start_time, self.serial.received_packet_count, self.serial.error_packet_count)
    }
}

impl View for CrsfReceiver {
    type V = CrsfIsrModel;

    closed spec fn view(&self) -> CrsfIsrModel {
        CrsfIsrModel {
            index: self.serial.packet_index as nat,
            size: self.packet_size as nat,
            packet_type: self.packet_type,
            packet_isr: self.packet_isr@,
            packet: self.packet@,
            packet_is_empty: self.serial.packet_is_empty,
        }
    }
}

impl Default for CrsfReceiver {
    fn default() -> (r: Self)
        ensures
            r@.index == 0 && r@.size == 0 && r@.packet_type == 0,
            r@.packet_isr == Seq::new(64, |i: int| 0u8),
            r@.packet == Seq::new(64, |i: int| 0u8),
            r@.packet_is_empty,
            r.receiver_common() == RxReceiverCommon::new_spec(),
            r.channel_values() == Seq::new(16, |i: int| 0u16),
            r.serial_bookkeeping() == (0u32, 0u32, 0i32),
    {
        Self::new()
    }
}

impl CrsfReceiver {
    pub const TIME_NEEDED_PER_FRAME_US: u32 = 1750;
    pub const CRSF_SYNC_BYTE: u8 = 0xC8;
    pub const EDGE_TX_SYNC_BYTE: u8 = 0xEE;
    pub const MAX_PACKET_SIZE: usize = 64;

    /// Constructor: no packet started, buffers zero.
    pub fn new() -> (r: Self)
        ensures
            r@.index == 0 && r@.size == 0 && r@.packet_type == 0,
            r@.packet_isr == Seq::new(64, |i: int| 0u8),
            r@.packet == Seq::new(64, |i: int| 0u8),
            r@.packet_is_empty,
            r.receiver_common() == RxReceiverCommon::new_spec(),
            r.channel_values() == Seq::new(16, |i: int| 0u16),
            r.serial_bookkeeping() == (0u32, 0u32, 0i32),
    {
        let r = Self {
            common: RxReceiverCommon::default(),
            serial: ReceiverSerial::default(),
            channels: [0u16; 16],
            packet_size: 0,
            packet_type: 0,
            packet_isr: [0u8; 64],
            packet: [0u8; 64],
        };
        assert(r@.packet_isr =~= Seq::new(64, |i: int| 0u8));
        assert(r@.packet =~= Seq::new(64, |i: int| 0u8));
        assert(r.channel_values() =~= Seq::new(16, |i: int| 0u16));
        r
    }

    /// Whether data is available: never.
    pub fn is_data_available(&self) -> (r: bool)
        ensures
            !r,
    {
        false
    }

    /// Reads a byte: always 0.
    pub fn read_byte(&mut self) -> (r: u8)
        ensures
            r == 0,
            *final(self) == *old(self),
    {
        0
    }

    /// Handles one byte received in the interrupt handler; returns true when it completes a
    /// packet, which is then copied out of the interrupt buffer.
    /// The packet index must be within the 64-byte packet buffer.
    pub fn on_data_received_from_isr(&mut self, data: u8) -> (r: bool)
        requires
            old(self)@.index < 64,
        ensures
            (final(self)@, r) == crsf_isr_step(old(self)@, data),
            final(self).receiver_common() == old(self).receiver_common(),
            final(self).channel_values() == old(self).channel_values(),
            final(self).serial_bookkeeping() == old(self).serial_bookkeeping(),
            final(self).serial_bookkeeping().0 == 0,
    {
        proof {
            use_type_invariant(&*self);
        }
        let time_now_us: u32 = 0;
        if time_now_us > self.serial.start_time + Self::TIME_NEEDED_PER_FRAME_US {
            self.serial.packet_index = 0;
            self.common.dropped_packet_count += 1;
        }
        if self.serial.packet_index == 0 {
            if data != Self::CRSF_SYNC_BYTE && data != Self::EDGE_TX_SYNC_BYTE {
                self.serial.packet_is_empty = true;
                return false;
            }
            self.serial.start_time = time_now_us;
        } else if self.serial.packet_index == 1 {
            self.packet_size = data as usize + 2;
        } else if self.serial.packet_index == 2 {
            self.packet_type = data;
        }
        self.packet_isr[self.serial.packet_index] = data;
        self.serial.packet_index += 1;
        if self.packet_size != 0 && self.serial.packet_index == self.packet_size {
            self.serial.packet_index = 0;
            self.packet_size = 0;
            // Copy the interrupt buffer, so it is available for the next interrupt.
            self.packet = self.packet_isr;
            return true;
        }
        false
    }
}

} // verus!
