use rc_receiver::protocols::ibus::IbusFrame;
use rc_receiver::protocols::ibus_decoder::IbusDecoder;
use rc_receiver::protocols::ibus_radio::IbusRadio;
use rc_receiver::protocols::mock_radio::MockRadio;
use rc_receiver::protocols::receiver_crsf::CrsfReceiver;
use rc_receiver::protocols::receiver_serial::ReceiverSerial;
use rc_receiver::protocols::sbus;
use rc_receiver::protocols::sbus_decoder::SbusDecoder;
use rc_receiver::protocols::sbus_frame::SbusFrame;
use rc_receiver::protocols::sbus_parser::SbusParser;
use rc_receiver::protocols::sbus_radio::SbusRadio;
use rc_receiver::rx_radio::RxRadio;
use rc_receiver::rx_receiver::{RxFrame, RxLinkStatus};

#[allow(unused)]
fn is_normal<T: Sized + Send + Sync + Unpin>() {}
fn is_full<T: Sized + Send + Sync + Unpin + Copy + Clone + Default + PartialEq>() {}

#[test]
fn ibus_normal_types() {
    is_full::<IbusFrame>();
}

#[test]
fn ibus_new() {
    let frame = IbusFrame::default();
    assert_eq!(0, frame.channels[0]);
}

#[test]
fn ibus_decoder_normal_types() {
    is_full::<IbusDecoder>();
}

/// Helper function to build a valid IBUS frame array
fn create_valid_frame(channel_values: [u16; IbusDecoder::CHANNEL_COUNT]) -> [u8; 32] {
    let mut frame = [0u8; 32];
    frame[0] = 0x20; // Length
    frame[1] = 0x40; // Command type

    // Inject the channel values as Little Endian bytes
    for i in 0..IbusDecoder::CHANNEL_COUNT {
        let offset = 2 + (i * 2);
        let bytes = channel_values[i].to_le_bytes();
        frame[offset] = bytes[0];
        frame[offset + 1] = bytes[1];
    }

    // Calculate Checksum: 0xFFFF - sum(bytes 0..30)
    let mut checksum: u16 = 0xFFFF;
    for i in 0..30 {
        checksum -= frame[i] as u16;
    }

    let cs_bytes = checksum.to_le_bytes();
    frame[30] = cs_bytes[0];
    frame[31] = cs_bytes[1];

    frame
}

#[test]
fn test_successful_decode() {
    let mut decoder = IbusDecoder::new();

    // 1. Establish an arbitrary set of healthy receiver channel mappings
    let input_channels = [
        1500, 1500, 1100, 1500, // Roll, Pitch, Throttle, Yaw
        1000, 2000, 1500, 1000, // AUX 1-4
        1200, 1300, 1400, 1600, 1700, 1800, // Extra channels
    ];

    let raw_stream = create_valid_frame(input_channels);

    // 2. Feed the stream into the state machine byte-by-byte
    let mut result = None;
    for &byte in raw_stream.iter() {
        result = decoder.on_byte_received(byte);
    }

    // 3. Assert the state machine accurately matched the complete packet
    assert!(result.is_some(), "Decoder failed to yield channels on final frame byte!");
    let ibus_frame = result.unwrap();

    assert_eq!(
        ibus_frame.channels[..IbusDecoder::CHANNEL_COUNT],
        input_channels,
        "Decoded values do not match original inputs"
    );
    let rx_frame = RxFrame::from(ibus_frame);
    assert!(rx_frame.status == RxLinkStatus::Okay, "Decoder incorrectly flagged a healthy signal as a failsafe!");
}

#[test]
fn test_corrupted_checksum_rejection() {
    let mut decoder = IbusDecoder::new();
    let input_channels = [1500; IbusDecoder::CHANNEL_COUNT];
    let mut raw_stream = create_valid_frame(input_channels);

    // Corrupt a middle payload byte (byte index 5)
    raw_stream[5] ^= 0xFF;

    let mut result = None;
    for &byte in raw_stream.iter() {
        result = decoder.on_byte_received(byte);
    }

    // The state machine should finish processing but return None due to a failed checksum match
    assert!(result.is_none(), "Decoder accepted a packet with a corrupted payload byte!");
}

#[test]
fn test_invalid_header_recovery() {
    let mut decoder = IbusDecoder::new();
    let input_channels = [1500; IbusDecoder::CHANNEL_COUNT];
    let valid_stream = create_valid_frame(input_channels);

    // Define our fixed noise sequence (6 bytes)
    let noise = [0x00, 0xFF, 0x20, 0x20, 0x41, 0x00];

    // Combine them into a single compile-time fixed-size buffer (6 + 32 = 38 bytes)
    let mut noisy_stream = [0u8; 6 + 32];

    // Copy the slices into our fixed stack memory
    noisy_stream[..6].copy_from_slice(&noise);
    noisy_stream[6..].copy_from_slice(&valid_stream);

    let mut decoded_frame = None;

    for &byte in noisy_stream.iter() {
        if let Some(ibus_frame) = decoder.on_byte_received(byte) {
            decoded_frame = Some(ibus_frame);
        }
    }

    assert!(decoded_frame.is_some(), "Decoder failed to sync and recover after receiving noise!");
    assert_eq!(
        decoded_frame.unwrap().channels[..IbusDecoder::CHANNEL_COUNT],
        [1500; IbusDecoder::CHANNEL_COUNT],
        "Recovered packet contained bad channel data"
    );
}

#[test]
fn test_receiver_failsafe_detection() {
    let mut decoder = IbusDecoder::new();

    // Emulate typical radio-link failure values where throttle (Channel 3) drops below 950
    let mut failsafe_channels = [1500; IbusDecoder::CHANNEL_COUNT];
    failsafe_channels[2] = 900; // Drop channel 3 below 950 boundary

    let raw_stream = create_valid_frame(failsafe_channels);

    let mut result = None;
    for &byte in raw_stream.iter() {
        result = decoder.on_byte_received(byte);
    }

    assert!(result.is_some());
    let ibus_frame = result.unwrap();
    let rx_frame = RxFrame::from(ibus_frame);
    assert!(rx_frame.status == RxLinkStatus::Failsafe, "Decoder failed to identify internal receiver link failure!");
}

#[test]
fn ibus_decoder_fills_unused_channels_and_rssi() {
    let mut decoder = IbusDecoder::new();
    let mut channels = [1500; IbusDecoder::CHANNEL_COUNT];
    channels[2] = 950; // throttle exactly at the boundary is not a failsafe
    let mut result = None;
    for &byte in create_valid_frame(channels).iter() {
        result = decoder.on_byte_received(byte);
    }
    let frame = result.unwrap();
    assert_eq!(RxLinkStatus::Okay, frame.status);
    assert_eq!([0, 0], frame.channels[14..]);
    assert_eq!(0, frame.rssi);
}

#[test]
fn ibus_frame_parse_agrees_with_decoder() {
    let channels = [1234; IbusDecoder::CHANNEL_COUNT];
    let packet = create_valid_frame(channels);
    let frame = IbusFrame::parse(&packet).unwrap();
    assert_eq!(channels, frame.channels);
    let mut corrupted = packet;
    corrupted[31] ^= 1;
    assert!(IbusFrame::parse(&corrupted).is_none());
    let mut wrong_header = packet;
    wrong_header[1] = 0x41;
    assert!(IbusFrame::parse(&wrong_header).is_none());
}

#[test]
fn ibus_radio_normal_types() {
    is_full::<IbusRadio>();
}

#[test]
fn ibus_radio_new() {
    let _radio = IbusRadio::new();
}

#[test]
fn mock_radio_normal_types() {
    is_full::<MockRadio>();
}

#[test]
fn mock_radio_new() {
    let _radio = MockRadio::new();
}

#[test]
fn receiver_crsf_normal_types() {
    is_full::<CrsfReceiver>();
}

#[test]
fn receiver_crsf_new() {
    let _receiver = CrsfReceiver::new();
}

#[test]
fn receiver_crsf_collects_a_packet() {
    let mut receiver = CrsfReceiver::new();
    // A byte that is not a sync byte is dropped.
    assert!(!receiver.on_data_received_from_isr(0x00));
    // Sync, length 3 (type, one payload byte, CRC), type, payload, CRC: five bytes in all.
    let packet = [0xC8, 0x03, 0x16, 0x55, 0xAA];
    for (i, &byte) in packet.iter().enumerate() {
        let complete = receiver.on_data_received_from_isr(byte);
        assert_eq!(i == packet.len() - 1, complete);
    }
    assert!(!receiver.is_data_available());
}

#[test]
fn receiver_serial_normal_types() {
    is_normal::<ReceiverSerial>();
}

#[test]
fn receiver_serial_new() {
    let receiver = ReceiverSerial::new();
    assert!(receiver.packet_is_empty);
}

#[test]
fn sbus_normal_types() {
    is_full::<sbus::SbusFlags>();
    is_full::<sbus::SbusFrame>();
    is_normal::<sbus::SbusParser>();
}

#[test]
fn sbus_new() {
    let frame = sbus::SbusFrame::default();
    assert_eq!(0, frame.rssi);
}

#[test]
fn sbus_flags_from_byte() {
    let flags = sbus::SbusFlags::from_byte(0x0C);
    assert!(flags.frame_lost);
    assert!(flags.failsafe);
    let flags = sbus::SbusFlags::from_byte(0x04);
    assert!(flags.frame_lost);
    assert!(!flags.failsafe);
}

#[test]
fn sbus_decoder_normal_types() {
    is_full::<SbusDecoder>();
}

#[test]
fn sbus_decoder_new() {
    let frame = SbusFrame::default();
    assert_eq!(0, frame.rssi);
}

const SBUS_STREAM: [u8; 25] = [
    0x0F, // header
    // 22 u8s
    0xE0, 0x03, 0x1F, 0x58, 0xC0, 0x07, 0x16, 0xB0, 0x80, 0x05, 0x2C, //
    0x60, 0x01, 0x0B, 0xF8, 0xC0, 0x07, 0x00, 0x00, 0x00, 0x00, 0x00, //
    0x03, // flags
    0x00, // footer
];

const SBUS_EXPECTED: [u16; 16] = [992, 992, 352, 992, 352, 352, 352, 352, 352, 352, 992, 992, 0, 0, 0, 0];

#[test]
fn sbus_decoder_parse_message() {
    let stream: [u8; SbusDecoder::PACKET_LENGTH] = SBUS_STREAM;

    let expected_channels: [u16; SbusFrame::CHANNEL_COUNT] = SBUS_EXPECTED;

    let mut sbus_parser = SbusDecoder::new();
    if let Some(frame) = sbus_parser.parse(&stream) {
        let channels = frame.channels;
        assert_eq!(expected_channels, channels);
    } else {
        unreachable!();
    }
}

#[test]
fn sbus_decoder_rejects_bad_footer_and_header() {
    let mut decoder = SbusDecoder::new();
    let mut stream = SBUS_STREAM;
    stream[24] = 0x55;
    assert!(decoder.parse(&stream).is_none());
    let mut stream = SBUS_STREAM;
    stream[0] = 0x0E;
    assert!(decoder.parse(&stream).is_none());
}

#[test]
fn sbus_decoder_byte_stream() {
    let mut decoder = SbusDecoder::new();
    let mut frames = 0;
    // Noise first, then the packet.
    for &byte in [0x00u8, 0x12].iter().chain(SBUS_STREAM.iter()) {
        if let Some(frame) = decoder.on_byte_received(byte) {
            assert_eq!(SBUS_EXPECTED, frame.channels);
            frames += 1;
        }
    }
    assert_eq!(1, frames);
}

/// Safe helper function to pack a raw channel into 11-bit chunks manually.
/// This gives us a 100% accurate, known input frame buffer for the decoder test.
fn generate_mock_sbus_buffer(input_channels: [u16; 16]) -> [u8; 22] {
    let mut buffer = [0u8; 22];
    let mut bit_bucket: u32 = 0;
    let mut bits_in_bucket: u32 = 0;
    let mut byte_index: usize = 0;

    for channel_val in input_channels.iter() {
        // Mask to ensure the value stays strictly constrained inside 11 bits (0..2047)
        let clean_val = channel_val & 0x07FF;

        // Push the 11 bits onto our active buffer accumulator
        bit_bucket |= (clean_val as u32) << bits_in_bucket;
        bits_in_bucket += 11;

        // Drain whole bytes out of our bit accumulator into the final buffer array
        while bits_in_bucket >= 8 {
            buffer[byte_index] = (bit_bucket & 0xFF) as u8;
            byte_index += 1;
            bit_bucket >>= 8;
            bits_in_bucket -= 8;
        }
    }

    // Flush any remaining trailing bits into the final payload slots
    if bits_in_bucket > 0 && byte_index < 22 {
        buffer[byte_index] = (bit_bucket & 0xFF) as u8;
    }

    buffer
}

#[test]
fn test_sbus_32bit_window_decoder() {
    // Establish an arbitrary, diverse set of test channels (values 0..2047)
    let expected_channels = [1000, 1500, 172, 2000, 111, 1890, 512, 1024, 1500, 992, 1234, 45, 2047, 0, 777, 1520];

    // 1. Pack our known good values into a real 22-byte packed stream array
    let packed_sbus_stream = generate_mock_sbus_buffer(expected_channels);

    // 2. Pass the byte payload through the chunks and 32-bit window algorithm
    let decoded_output = SbusDecoder::parse_sbus_channels(&packed_sbus_stream);

    // 3. Assert the output matches exactly with zero data degradation
    assert_eq!(
        decoded_output, expected_channels,
        "The optimized 32-bit overlapping window bit shift algorithm misaligned channel data!"
    );
}

#[test]
fn test_sbus_decoder_extremes() {
    // Test edge cases: Every single bit turned entirely on (2047) or off (0)
    let max_channels = [2047u16; 16];
    let min_channels = [0u16; 16];

    let max_buffer = generate_mock_sbus_buffer(max_channels);
    let min_buffer = generate_mock_sbus_buffer(min_channels);

    assert_eq!(SbusDecoder::parse_sbus_channels(&max_buffer), max_channels, "Failed to decode max 11-bit boundaries");
    assert_eq!(SbusDecoder::parse_sbus_channels(&min_buffer), min_channels, "Failed to decode min 11-bit boundaries");
}

#[test]
fn sbus_frame_new() {
    let frame = SbusFrame::default();
    assert_eq!(0, frame.rssi);
}

#[test]
fn sbus_frame_parse_message() {
    let stream: [u8; SbusDecoder::PACKET_LENGTH] = SBUS_STREAM;

    let expected_channels: [u16; SbusFrame::CHANNEL_COUNT] = SBUS_EXPECTED;

    let mut sbus_parser = SbusDecoder::new();
    if let Some(frame) = sbus_parser.parse(&stream) {
        let channels = frame.channels;
        assert_eq!(expected_channels, channels);
    } else {
        unreachable!();
    }
}

#[test]
fn sbus_frame_link_status() {
    let mut frame = SbusFrame::default();
    assert_eq!(RxLinkStatus::Okay, RxFrame::from(frame).status);
    frame.flags = SbusFrame::FRAME_LOST;
    assert_eq!(RxLinkStatus::NoSignal, RxFrame::from(frame).status);
    frame.flags = SbusFrame::FAILSAFE | SbusFrame::FRAME_LOST;
    assert_eq!(RxLinkStatus::Failsafe, RxFrame::from(frame).status);
}

#[test]
fn sbus_parser_normal_types() {
    is_full::<SbusParser>();
}

#[test]
fn sbus_parser_new() {
    let frame = SbusFrame::default();
    assert_eq!(0, frame.rssi);
}

#[test]
fn sbus_parser_parse_message() {
    let stream: [u8; SbusParser::PACKET_LENGTH] = SBUS_STREAM;

    let expected_channels: [u16; SbusFrame::CHANNEL_COUNT] = SBUS_EXPECTED;

    let mut sbus_parser = SbusParser::new();
    if let Some(frame) = sbus_parser.parse(&stream) {
        let channels = frame.channels;
        assert_eq!(expected_channels, channels);
    } else {
        unreachable!();
    }
}

#[test]
fn sbus_radio_normal_types() {
    is_full::<SbusRadio>();
}

#[test]
fn sbus_radio_new() {
    let _radio = SbusRadio::new();
}

#[test]
fn sbus_frames_carry_the_flags_byte() {
    let mut decoder = SbusDecoder::new();
    let frame = decoder.parse(&SBUS_STREAM).unwrap();
    assert_eq!(0x03, frame.flags);
    assert_eq!(RxLinkStatus::Okay, RxFrame::from(frame).status);

    let mut failsafe_stream = SBUS_STREAM;
    failsafe_stream[23] = 0x08;
    let frame = decoder.parse(&failsafe_stream).unwrap();
    assert_eq!(0x08, frame.flags);
    assert_eq!(RxLinkStatus::Failsafe, RxFrame::from(frame).status);

    let mut lost_stream = SBUS_STREAM;
    lost_stream[23] = 0x04;
    let mut parser = SbusParser::new();
    let frame = parser.parse(&lost_stream).unwrap();
    assert_eq!(0x04, frame.flags);
    assert_eq!(RxLinkStatus::NoSignal, RxFrame::from(frame).status);
}

#[test]
fn sbus_radio_reports_failsafe_from_flags() {
    let mut radio = SbusRadio::new();
    let mut stream = SBUS_STREAM;
    stream[23] = 0x0C;
    let mut complete = false;
    for &byte in stream.iter() {
        complete = radio.on_byte_received(byte);
    }
    assert!(complete);
    assert_eq!(RxLinkStatus::Failsafe, radio.rx_frame().status);
}
