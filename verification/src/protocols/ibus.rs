//! Whole-packet iBUS parsing.
use vstd::prelude::*;
use vstd::std_specs::convert::FromSpecImpl;
use crate::protocols::ibus_decoder::{
    IbusOutput, byte_sum, ibus_channels_spec, ibus_checksum_ok, ibus_feed, le16,
    lemma_ibus_packet_decodes,
};
use crate::rx_receiver::{RxFrame, RxLinkStatus};

verus! {

/// The 14 little-endian channel values in bytes 2..30 of a 32-byte iBUS packet.
pub open spec fn ibus_packet_channels(packet: Seq<u8>) -> Seq<u16> {
    Seq::new(14, |i: int| le16(packet[2 + 2 * i], packet[3 + 2 * i]))
}

/// Whether a 32-byte iBUS packet is valid: header 0x20 0x40 and a correct checksum.
pub open spec fn ibus_packet_valid(packet: Seq<u8>) -> bool {
    packet[0] == 0x20 && packet[1] == 0x40 && ibus_checksum_ok(packet)
}

/// The iBUS protocol (by FlySky/Turnigy).
/// It is not inverted and uses a straightforward "Sum of Bytes" checksum.
///
/// Packet Structure (32 Bytes)
///    Byte 0: Header 0x20
///    Byte 1: Command/Type 0x40 (for RC channels)
///    Bytes 2–29: 14 Channels (2 bytes each, Little-Endian)
///    Bytes 30–31: Checksum (2 bytes, Little-Endian).
#[derive(Clone, Copy, Debug, PartialEq, Eq)]
pub struct IbusFrame {
    pub channels: [u16; 14],
}

impl Default for IbusFrame {
    fn default() -> (r: Self)
        ensures
            r.channels@ == Seq::new(14, |i: int| 0u16),
    {
        Self::new()
    }
}

impl IbusFrame {
    pub const CHANNEL_COUNT: usize = 14;
    pub const PACKET_LENGTH: usize = 32;

    /// Constructor: all channels 0.
    pub fn new() -> (r: Self)
        ensures
            r.channels@ == Seq::new(14, |i: int| 0u16),
    {
        let r = Self { channels: [0u16; 14] };
        assert(r.channels@ =~= Seq::new(14, |i: int| 0u16));
        r
    }

    /// The iBUS checksum is the one's complement of the sum of the first 30 bytes:
    /// start with a value of 0xFFFF and subtract every byte from it.
    pub fn checksum(data: &[u8; 32]) -> (r: u16)
        ensures
            r == 0xFFFF - byte_sum(data@.take(30)),
    {
        let mut checksum: u16 = 0xFFFF;
        let mut i: usize = 0;
        while i < 30
            invariant
                i <= 30,
                checksum == 0xFFFF - byte_sum(data@.take(i as int)),
                byte_sum(data@.take(i as int)) <= 255 * i,
            decreases 30 - i,
        {
            assert(data@.take(i + 1).drop_last() =~= data@.take(i as int));
            checksum = checksum - data[i] as u16;
            i += 1;
        }
        checksum
    }

    /// Parses a whole packet: `None` unless the header is 0x20 0x40 and the checksum is
    /// correct.
    pub fn parse(buffer: &[u8; 32]) -> (r: Option<Self>)
        ensures
            match r {
                Some(f) => ibus_packet_valid(buffer@) && f.channels@ == ibus_packet_channels(buffer@),
                None => !ibus_packet_valid(buffer@),
            },
    {
        // Verify header.
        if buffer[0] != 0x20 || buffer[1] != 0x40 {
            return None;
        }
        // Verify checksum.
        let received_checksum = (buffer[30] as u16) + (buffer[31] as u16) * 256;
        let calculated_checksum = Self::checksum(buffer);
        if received_checksum != calculated_checksum {
            return None;
        }
        // Extract 14 channels (little-endian), skipping the 2-byte header.
        let mut channels = [0u16; 14];
        let mut i: usize = 0;
        while i < 14
            invariant
                i <= 14,
                channels@.len() == 14,
                forall|j: int| 0 <= j < i ==> channels@[j] == ibus_packet_channels(buffer@)[j],
            decreases 14 - i,
        {
            channels[i] = (buffer[2 + 2 * i] as u16) + (buffer[3 + 2 * i] as u16) * 256;
            i += 1;
        }
        assert(channels@ =~= ibus_packet_channels(buffer@));
        Some(Self { channels })
    }
}

/// The receiver frame of an iBUS frame: its 14 channels, then `DEFAULT_CHANNEL_VALUE` (1000)
/// for the other two; link `Okay`, RSSI 0.
pub open spec fn ibus_frame_rx_channels(f: IbusFrame) -> Seq<u16> {
    Seq::new(16, |i: int| if i < 14 { f.channels@[i] } else { 1000u16 })
}

/// An array of 16 values whose view is `s` (for `s` of length 16).
pub open spec fn array16_with_view(s: Seq<u16>) -> [u16; 16] {
    choose|a: [u16; 16]| a@ == s
}

impl From<IbusFrame> for RxFrame {
    fn from(ibus: IbusFrame) -> (r: Self)
        ensures
            r.channels@ == ibus_frame_rx_channels(ibus),
            r.status == RxLinkStatus::Okay,
            r.rssi == 0,
    {
        let mut channels = [RxFrame::DEFAULT_CHANNEL_VALUE; 16];
        let mut i: usize = 0;
        while i < 14
            invariant
                i <= 14,
                channels@.len() == 16,
                forall|j: int| 0 <= j < i ==> channels@[j] == ibus.channels@[j],
                forall|j: int| i <= j < 16 ==> channels@[j] == 1000,
            decreases 14 - i,
        {
            channels[i] = ibus.channels[i];
            i += 1;
        }
        assert(channels@ =~= ibus_frame_rx_channels(ibus));
        let ghost chosen = array16_with_view(ibus_frame_rx_channels(ibus));
        assert(chosen@ == channels@);
        assert(chosen =~= channels);
        RxFrame { channels, status: RxLinkStatus::Okay, rssi: 0 }
    }
}

impl FromSpecImpl<IbusFrame> for RxFrame {
    open spec fn obeys_from_spec() -> bool {
        true
    }

    open spec fn from_spec(ibus: IbusFrame) -> RxFrame {
        RxFrame {
            channels: array16_with_view(ibus_frame_rx_channels(ibus)),
            status: RxLinkStatus::Okay,
            rssi: 0,
        }
    }
}

/// The whole-packet parser and the byte-at-a-time decoder agree: a 32-byte packet with the
/// header 0x20 0x40, fed to a decoder waiting for a packet, yields a frame exactly when
/// `IbusFrame::parse` accepts it, and then with the same 14 channels.
pub proof fn lemma_ibus_parse_agrees_with_decoder(packet: Seq<u8>)
    requires
        packet.len() == 32,
        packet[0] == 0x20,
        packet[1] == 0x40,
    ensures
        (ibus_feed(Seq::<u8>::empty(), packet).1 is Frame) <==> ibus_packet_valid(packet),
        forall|i: int|
            0 <= i < 14 ==> #[trigger] ibus_channels_spec(packet)[i] == ibus_packet_channels(packet)[i],
{
    lemma_ibus_packet_decodes(packet);
}

} // verus!
