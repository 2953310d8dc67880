use rc_receiver::protocols::crc_dvb_s2::CrcDvbS2;
use rc_receiver::protocols::crsf::{CrsfLinkStatistics, CrsfPacket, CrsfParser};
use rc_receiver::protocols::crsf_decoder::CrsfDecoder;
use rc_receiver::protocols::crsf_radio::CrsfRadio;
use rc_receiver::protocols::sbus_decoder::SbusDecoder;
use rc_receiver::rx_channel::RxChannels;

fn is_normal<T: Sized + Send + Sync + Unpin>() {}
fn is_full<T: Sized + Send + Sync + Unpin + Copy + Clone + Default + PartialEq>() {}

#[test]
fn crc_dvb_s2_normal_types() {
    is_full::<CrcDvbS2>();
}

#[test]
fn check_value() {
    assert_eq!(0xBC, CrcDvbS2::calculate(b"123456789"));
}

#[test]
fn table_crc_should_match_bit_by_bit_crc_outputs() {
    // Arrange
    let test_payloads: [&[u8]; 4] =
        [b"", b"hello", b"data_stream_xyz_12345", &[0x01, 0x02, 0x03, 0x04, 0x05, 0xFF, 0x00]];

    // Act & Assert
    for payload in &test_payloads {
        let bit_by_bit_result = CrcDvbS2::calculate_naive(payload);
        let table_result = CrcDvbS2::calculate(payload);

        assert_eq!(table_result, bit_by_bit_result, "CRC mismatch for payload: {payload:?}");
    }
}

#[test]
fn crc_of_message_with_its_crc_is_zero() {
    let message = b"data_stream_xyz_12345";
    let mut with_crc = message.to_vec();
    with_crc.push(CrcDvbS2::calculate(message));
    assert_eq!(0, CrcDvbS2::calculate(&with_crc));
    assert_eq!(0, CrcDvbS2::calculate_naive(&with_crc));
}

#[test]
fn crc_of_empty_and_single_byte() {
    assert_eq!(0, CrcDvbS2::calculate(&[]));
    // One byte: eight shifts of the byte through the polynomial.
    assert_eq!(0xD5, CrcDvbS2::calculate(&[0x01]));
    assert_eq!(CrcDvbS2::calculate_naive(&[0x80]), CrcDvbS2::calculate(&[0x80]));
}

#[test]
fn crsf_normal_types() {
    is_normal::<CrsfPacket>();
    is_full::<CrsfParser>();
    is_full::<CrsfLinkStatistics>();
}

#[test]
fn link_statistics() {
    let link_statistics = CrsfLinkStatistics::default();
    assert_eq!(0, link_statistics.uplink_rssi_dbm);
}

#[test]
fn link_statistics_parse() {
    let payload = [60u8, 0, 95, 5, 0, 2, 3, 70, 88, 0];
    let stats = CrsfLinkStatistics::parse(&payload);
    assert_eq!(-60, stats.uplink_rssi_dbm);
    assert_eq!(95, stats.uplink_lq);
    assert_eq!(5, stats.uplink_snr);
    assert_eq!(2, stats.rf_mode);
    assert_eq!(100, stats.tx_power_mw);
    assert_eq!(-70, stats.downlink_rssi_dbm);
    assert_eq!(88, stats.downlink_lq);
    // Too short a payload gives the zero statistics.
    assert_eq!(CrsfLinkStatistics::default(), CrsfLinkStatistics::parse(&payload[..9]));
}

#[test]
fn crsf_parse_payload_kinds() {
    let payload = [0x01, 0x2C, 0x00, 0x0A];
    assert_eq!(
        CrsfPacket::Battery { voltage: 300, current: 10 },
        CrsfParser::parse_payload(0x08, &payload)
    );
    assert_eq!(CrsfPacket::LinkStatistics { rssi_dbm: 0x01, lq: 0x2C, rf_mode: 0x0A }, CrsfParser::parse_payload(0x21, &payload));
    assert_eq!(CrsfPacket::Unknown(0x7A), CrsfParser::parse_payload(0x7A, &payload));
    match CrsfParser::parse_payload(0x16, &payload) {
        CrsfPacket::Channels(channels) => assert_eq!(channels, RxChannels::default()),
        other => panic!("unexpected packet {other:?}"),
    }
}

#[test]
fn crsf_unpack_channels_least_significant_bit_first() {
    // Three bytes hold two whole 11-bit fields, read least significant bit first.
    let data = [0xAA, 0xAC, 0xCE];
    let (channels, count) = CrsfParser::unpack_crsf_channels(&data);
    assert_eq!(2, count);
    assert_eq!(0x4AA, channels.0[0]);
    assert_eq!(0x1D5, channels.0[1]);
    // The channels not read keep the failsafe values.
    assert_eq!(RxChannels::default().0[2..], channels.0[2..]);
    let (_, count) = CrsfParser::unpack_crsf_channels(&data[..1]);
    assert_eq!(0, count);
}

#[test]
fn crsf_unpack_packet_checks_crc_and_type() {
    let mut packet = [0u8; 64];
    packet[0] = 0xC8;
    packet[1] = 24;
    packet[2] = 0x16;
    for i in 0..22 {
        packet[3 + i] = i as u8 + 1;
    }
    // The CRC byte sits at index length - 2 (22) and must equal the CRC of the whole buffer;
    // 6 is such a byte for this packet.
    packet[22] = 6;
    assert_eq!(6, CrcDvbS2::calculate(&packet));
    let payload = CrsfParser::_unpack_packet(packet);
    assert_eq!(packet[3..25], payload[..]);
    packet[22] = 7;
    assert_eq!([0u8; 22], CrsfParser::_unpack_packet(packet));
    // A packet of another type (0x1F) whose CRC matches gives zeros too.
    packet[2] = 0x1F;
    packet[22] = 30;
    assert_eq!(30, CrcDvbS2::calculate(&packet));
    assert_eq!([0u8; 22], CrsfParser::_unpack_packet(packet));
}

#[test]
fn crsf_packing_reads_back_as_sbus_fields() {
    let input = [1000, 1500, 172, 2000, 111, 1890, 512, 1024, 1500, 992, 1234, 45, 2047, 0, 777, 1520];
    let payload = CrsfParser::_pack_crsf_payload(RxChannels(input));
    assert_eq!(input, SbusDecoder::parse_sbus_channels(&payload));
}

#[test]
fn crsf_unpack_inverts_pack() {
    let input = [1000, 1500, 172, 2000, 111, 1890, 512, 1024, 1500, 992, 1234, 45, 2047, 0, 777, 1520];
    let payload = CrsfParser::_pack_crsf_payload(RxChannels(input));
    let (channels, count) = CrsfParser::unpack_crsf_channels(&payload);
    assert_eq!(16, count);
    assert_eq!(input, channels.0);
    // More bytes than sixteen fields need still give sixteen channels.
    let mut longer = [0u8; 30];
    longer[..22].copy_from_slice(&payload);
    let (channels, count) = CrsfParser::unpack_crsf_channels(&longer);
    assert_eq!(16, count);
    assert_eq!(input, channels.0);
}

#[test]
fn crsf_packing_spills_high_bits() {
    // A channel above 11 bits spills into the next field.
    let mut input = [0u16; 16];
    input[0] = 0x0800;
    let payload = CrsfParser::_pack_crsf_payload(RxChannels(input));
    let channels = SbusDecoder::parse_sbus_channels(&payload);
    assert_eq!(0, channels[0]);
    assert_eq!(1, channels[1]);
}

#[test]
fn crsf_decoder_normal_types() {
    is_full::<CrsfDecoder>();
}

/// Standard CRSF CRC8 implementation (DVB-S2 variant, polynomial 0xD5)
/// Used here to cleanly generate valid testing packets.
fn calculate_test_crc8(data: &[u8]) -> u8 {
    let mut crc = 0u8;
    for &byte in data {
        crc ^= byte;
        for _ in 0..8 {
            if (crc & 0x80) != 0 {
                crc = (crc << 1) ^ 0xD5;
            } else {
                crc <<= 1;
            }
        }
    }
    crc
}

/// Helper function to build a completely valid, binary-accurate CRSF packet.
/// Packs 16 channels into 11-bit chunks, appends type headers, and stamps the CRC8 byte.
fn create_valid_crsf_packet(input_channels: [u16; 16]) -> [u8; 26] {
    let mut packet = [0u8; 26];
    packet[0] = 0xC8; // Address byte
    packet[1] = 24; // Length (1 byte Type + 22 bytes Payload + 1 byte CRC)
    packet[2] = 0x16; // Type: RC Channels Packed Frame

    // Pack 16 channels (11 bits each) into the 22-byte payload allocation block
    let mut bit_bucket: u32 = 0;
    let mut bits_in_bucket: u32 = 0;
    let mut byte_offset = 3;

    for &channel_val in input_channels.iter() {
        let clean_val = channel_val & 0x07FF; // Enforce 11-bit boundary constraint
        bit_bucket |= (clean_val as u32) << bits_in_bucket;
        bits_in_bucket += 11;

        while bits_in_bucket >= 8 {
            packet[byte_offset] = (bit_bucket & 0xFF) as u8;
            byte_offset += 1;
            bit_bucket >>= 8;
            bits_in_bucket -= 8;
        }
    }
    if bits_in_bucket > 0 && byte_offset < 25 {
        packet[byte_offset] = (bit_bucket & 0xFF) as u8;
    }

    // Calculate and append the final CRC8 byte over indices 2..25 (Type + Channel Payload)
    let crc = calculate_test_crc8(&packet[2..25]);
    packet[25] = crc;

    packet
}

#[test]
fn test_successful_crsf_decode() {
    let mut decoder = CrsfDecoder::new();

    // 1. Establish an arbitrary set of healthy channel mappings (within 0..2047 limits)
    let input_channels = [1000, 1500, 172, 2000, 111, 1890, 512, 1024, 1500, 992, 1234, 45, 2047, 0, 777, 1520];

    let raw_stream = create_valid_crsf_packet(input_channels);

    // 2. Feed the stream into the state machine byte-by-byte
    let mut result = None;
    for &byte in raw_stream.iter() {
        if let Some(frame) = decoder.on_byte_received(byte) {
            result = Some(frame);
        }
    }

    // 3. Assert the state machine accurately matched the complete packet
    assert!(result.is_some(), "Decoder failed to yield channels on final frame byte!");
    let output_frame = result.unwrap();

    assert_eq!(output_frame.channels, input_channels, "Decoded values do not match original 11-bit input boundaries!");
}

#[test]
fn test_corrupted_crc_rejection() {
    let mut decoder = CrsfDecoder::new();
    let input_channels = [1000; 16];
    let mut raw_stream = create_valid_crsf_packet(input_channels);

    // Corrupt the final CRC byte intentionally
    let last_idx = raw_stream.len() - 1;
    raw_stream[last_idx] ^= 0x5A;

    let mut result = None;
    for &byte in raw_stream.iter() {
        if let Some(frame) = decoder.on_byte_received(byte) {
            result = Some(frame);
        }
    }

    assert!(result.is_none(), "Decoder accepted a packet containing a corrupted CRC byte!");
}

#[test]
fn test_noise_and_recovery() {
    let mut decoder = CrsfDecoder::new();
    let input_channels = [1500; 16];
    let valid_packet = create_valid_crsf_packet(input_channels);

    // Create a fixed stack noise prefix array (6 bytes)
    let noise = [0x00, 0xC7, 0xC8, 0x02, 0x16, 0xFF]; // Includes a false start 0xC8

    let mut noisy_stream = [0u8; 6 + 26];
    noisy_stream[..6].copy_from_slice(&noise);
    noisy_stream[6..].copy_from_slice(&valid_packet);

    let mut decoded_frame = None;
    for &byte in noisy_stream.iter() {
        if let Some(frame) = decoder.on_byte_received(byte) {
            decoded_frame = Some(frame);
        }
    }

    assert!(decoded_frame.is_some(), "Decoder failed to re-sync and recover after stream noise!");
    assert_eq!(decoded_frame.unwrap().channels, [1500; 16]);
}

#[test]
fn crsf_decoder_ignores_other_packet_types() {
    let mut decoder = CrsfDecoder::new();
    let mut packet = create_valid_crsf_packet([1200; 16]);
    packet[2] = 0x14;
    packet[25] = calculate_test_crc8(&packet[2..25]);
    for &byte in packet.iter() {
        assert!(decoder.on_byte_received(byte).is_none());
    }
}

#[test]
fn crsf_radio_normal_types() {
    is_full::<CrsfRadio>();
}
