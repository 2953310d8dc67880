//! A CRSF radio driven byte by byte from the serial interrupt handler.
use vstd::prelude::*;
use crate::protocols::crsf_decoder::CrsfDecoder;
use crate::protocols::crsf_frame::CrsfFrame;
use crate::protocols::protocol::RxProtocol;
use crate::protocols::receiver_crsf::{CrsfIsrModel, crsf_isr_step};
use crate::protocols::receiver_serial::ReceiverSerial;

verus! {

/// CRSF radio: collects packets in the interrupt handler and keeps a copy of the last one.
#[derive(Clone, Copy, Debug, PartialEq)]
pub struct CrsfRadio {
    pub(crate) serial: ReceiverSerial,
    decoder: CrsfDecoder,
    pub(crate) frame: CrsfFrame,
    pub(crate) packet_size: usize,
    pub(crate) packet_type: u8,
    // The packet is: byte 0 sync; byte 1 length (of type, payload and CRC); byte 2 type;
    // 22 bytes of payload (11 bits per channel * 16 channels); CRC byte.
    pub(crate) packet_isr: [u8; 64],  // packet data written here in the interrupt handler
    pub(crate) packet: [u8; 64],  // copy of the packet used outside of the interrupt handler
}

impl CrsfRadio {
    pub const TIME_NEEDED_PER_FRAME_US: u32 = 1750;
    pub const CRSF_SYNC_BYTE: u8 = 0xC8;
    pub const EDGE_TX_SYNC_BYTE: u8 = 0xEE;
    pub const MAX_PACKET_SIZE: usize = 64;

    #[verifier::type_invariant]
    spec fn inv(self) -> bool {
        self.serial.start_time == 0
    }

    /// The decoder and the last frame: what the interrupt handler leaves alone.
    pub closed spec fn decoder_and_frame(&self) -> (CrsfDecoder, CrsfFrame) {
        (self.decoder, self.frame)
    }

    /// The serial bookkeeping that the packet model leaves out: the packet start time (always
    /// 0, as the handler has no clock), and the received and error packet counts.
    pub closed spec fn serial_bookkeeping(&self) -> (u32, u32, i32) {
        (self.serial.start_time, self.serial.received_packet_count, self.serial.error_packet_count)
    }
}

impl View for CrsfRadio {
    type V = CrsfIsrModel;

    closed spec fn view(&self) -> CrsfIsrModel {
        CrsfIsrModel {
            index: self.serial.packet_index as nat,
            size: self.packet_size as nat,
            packet_type: self.packet_type,
            packet_isr: self.packet_isr@,
            packet: self.packet@,
            packet_is_empty: self.serial.packet_is_empty,
        }
    }
}

impl RxProtocol for CrsfRadio {
    /// The packet index is inside the 64-byte packet buffer.
    open spec fn has_room_for_byte(&self) -> bool {
        self@.index < 64
    }

    /// Whether data is available: never.
    fn is_data_available(&self) -> (r: bool)
        ensures
            !r,
    {
        false
    }

    /// Reads a byte: always 0.
    fn read_byte(&mut self) -> (r: u8)
        ensures
            r == 0,
            *final(self) == *old(self),
    {
        0
    }

    /// Handles one byte received in the interrupt handler; returns true when it completes a
    /// packet, which is then copied out of the interrupt buffer.
    fn on_data_received_from_isr(&mut self, data: u8) -> (r: bool)
        ensures
            (final(self)@, r) == crsf_isr_step(old(self)@, data),
            final(self).decoder_and_frame() == old(self).decoder_and_frame(),
            final(self).serial_bookkeeping() == old(self).serial_bookkeeping(),
            final(self).serial_bookkeeping().0 == 0,
    {
        proof {
            use_type_invariant(&*self);
        }
        let time_now_us: u32 = 0;
        if time_now_us > self.serial.start_time + Self::TIME_NEEDED_PER_FRAME_US {
            self.serial.packet_index = 0;
        }
        if self.serial.packet_index == 0 {
            if data != Self::CRSF_SYNC_BYTE && data != Self::EDGE_TX_SYNC_BYTE {
                self.serial.packet_is_empty = true;
                return false;
            }
            self.serial.start_time = time_now_us;
        } else if self.serial.packet_index == 1 {
            self.packet_size = data as usize + 2;
        } else if self.serial.packet_index == 2 {
            self.packet_type = data;
        }
        self.packet_isr[self.serial.packet_index] = data;
        self.serial.packet_index += 1;
        if self.packet_size != 0 && self.serial.packet_index == self.packet_size {
            self.serial.packet_index = 0;
            self.packet_size = 0;
            // Copy the interrupt buffer, so it is available for the next interrupt.
            self.packet = self.packet_isr;
            return true;
        }
        false
    }
}

} // verus!
