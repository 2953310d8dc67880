use rc_receiver::controls::RxControlsPwm;
use rc_receiver::mock_uart::MockUart;
use rc_receiver::protocols::mock_radio::MockRadio;
use rc_receiver::rc_mode::RcMode;
use rc_receiver::rc_modes::{ModeActivationCondition, RcModes, RxChannelRange};
use rc_receiver::rx_channel::{self, RxChannel, RxChannels};
use rc_receiver::rx_config::RadioType;
use rc_receiver::rx_frame::{RxChannelsLinkStatus, RxFrameType, RxLinkStatus};
use rc_receiver::rx_radio::{Radio, RxRadio};
use rc_receiver::rx_receiver::{self, Eui48, RxReceiverCommon};

#[allow(unused)]
fn is_normal<T: Sized + Send + Sync + Unpin>() {}
fn is_full<T: Sized + Send + Sync + Unpin + Copy + Clone + Default + PartialEq>() {}
fn is_full_no_default<T: Sized + Send + Sync + Unpin + Copy + Clone + PartialEq>() {}

#[test]
fn test_sbus_parsing() {
    let mut mock = MockUart::new();

    // A valid SBUS packet (simplified example)
    let sbus_packet = [0x0F, 0x00, 0x00, /* ... 22 bytes ... */ 0x00];
    mock.push_data(&sbus_packet);
}

#[test]
fn mock_uart_reads_back_pushed_bytes() {
    let mut mock = MockUart::default();
    assert_eq!(None, mock.read());
    mock.push_data(&[0x0F, 0x01]);
    mock.push_data(&[0x02]);
    assert_eq!(Some(0x0F), mock.read());
    assert_eq!(Some(0x01), mock.read());
    assert_eq!(Some(0x02), mock.read());
    assert_eq!(None, mock.read());
    let full = [0xAAu8; 61];
    mock.push_data(&full);
    assert_eq!(Some(0xAA), mock.read());
}

#[test]
fn rc_mode_normal_types() {
    is_full::<RcMode>();
}

#[test]
fn rc_mode_table_lookups() {
    let arm = RcMode::find_rc_mode_by_id(RcMode::ARM).unwrap();
    assert_eq!("ARM", arm.name);
    assert_eq!(0, arm.permanent_id);
    let angle = RcMode::find_rc_mode_by_permanent_id(1).unwrap();
    assert_eq!(RcMode::ANGLE, angle.id);
    assert!(RcMode::find_rc_mode_by_id(200).is_none());
    assert_eq!(RcMode::rc_modes()[2], RcMode::rc_mode_at(2));
}

#[test]
fn rc_modes_normal_types() {
    is_full::<RxChannelRange>();
    is_full::<ModeActivationCondition>();
    is_full::<RcModes>();
}

#[test]
fn rc_modes_test_new() {
    let rc_modes = RcModes::default();
    assert_eq!(0, rc_modes.active_mac_count);
}

#[test]
fn mac() {
    let mut rc_modes = RcModes::default();

    let mac_arm = ModeActivationCondition::from_range_mode_channel(
        RxChannelRange::from_pwm(RxChannel::MID, RxChannel::HIGH),
        RcMode::ARM,
        RxChannel::AUX1_U8,
    );
    rc_modes.set_mac(0, mac_arm);
    let mac_angle = ModeActivationCondition::from_range_mode_channel(
        RxChannelRange::from_pwm(1000, 1250),
        RcMode::ANGLE,
        RxChannel::AUX2_U8,
    );
    rc_modes.set_mac(1, mac_angle);
    rc_modes.analyze_macs();

    let mut rx_frame = RxChannelsLinkStatus::default();
    rx_frame.channels[RxChannel::AUX1] = RxChannel::MID_HIGH;
    let channel_value: u16 = rx_frame.channel(mac_arm.aux_channel_index);
    assert_eq!(1750, channel_value);

    assert!(mac_arm.is_active(&rx_frame));
    assert!(mac_arm.range.is_active(&rx_frame, mac_arm.aux_channel_index));

    rx_frame.channels[RxChannel::AUX2] = 1125;
    assert!(mac_angle.is_active(&rx_frame));

    rc_modes.update_activated_modes(&rx_frame);
    assert!(rc_modes.is_mode_active(RcMode::ARM));
    assert!(rc_modes.is_mode_active(RcMode::ANGLE));
    assert!(!rc_modes.is_mode_active(RcMode::ALTITUDE_HOLD));
}

#[test]
fn mac_armed() {
    let mut rc_modes = RcModes::with_mac_arm();

    let mac_angle = ModeActivationCondition::from_range_mode_channel(
        RxChannelRange::from_pwm(1000, 1250),
        RcMode::ANGLE,
        RxChannel::AUX2_U8,
    );
    rc_modes.set_mac(1, mac_angle);
    rc_modes.analyze_macs();

    let mut rx_frame = RxChannelsLinkStatus::default();
    rx_frame.channels[RxChannel::AUX1] = RxChannel::MID_HIGH;

    rx_frame.channels[RxChannel::AUX2] = 1125;

    rc_modes.update_activated_modes(&rx_frame);
    assert!(rc_modes.is_mode_active(RcMode::ARM));
    assert!(rc_modes.is_mode_active(RcMode::ANGLE));
    assert!(!rc_modes.is_mode_active(RcMode::ALTITUDE_HOLD));
}

#[test]
fn mode_deactivates_when_channel_leaves_range() {
    let mut rc_modes = RcModes::with_mac_arm();
    rc_modes.analyze_macs();
    let mut rx_frame = RxChannelsLinkStatus::default();
    rx_frame.channels[RxChannel::AUX1] = RxChannel::MID_HIGH;
    rc_modes.update_activated_modes(&rx_frame);
    assert!(rc_modes.is_mode_active(RcMode::ARM));
    rx_frame.channels[RxChannel::AUX1] = RxChannel::LOW;
    rc_modes.update_activated_modes(&rx_frame);
    assert!(!rc_modes.is_mode_active(RcMode::ARM));
}

#[test]
fn and_conditions_need_every_range() {
    let mut rc_modes = RcModes::default();
    let mut first = ModeActivationCondition::from_range_mode_channel(
        RxChannelRange::from_pwm(1500, 2000),
        RcMode::HORIZON,
        RxChannel::AUX1_U8,
    );
    first.mode_logic = RcModes::LOGIC_AND;
    let mut second = ModeActivationCondition::from_range_mode_channel(
        RxChannelRange::from_pwm(1500, 2000),
        RcMode::HORIZON,
        RxChannel::AUX2_U8,
    );
    second.mode_logic = RcModes::LOGIC_AND;
    rc_modes.set_mac(0, first);
    rc_modes.set_mac(1, second);
    rc_modes.analyze_macs();
    assert_ne!(ModeActivationCondition::default(), rc_modes.mac(0));
    assert_eq!(ModeActivationCondition::default(), rc_modes.mac(5));

    let mut rx_frame = RxChannelsLinkStatus::default();
    rx_frame.channels[RxChannel::AUX1] = 1800;
    rc_modes.update_activated_modes(&rx_frame);
    assert!(!rc_modes.is_mode_active(RcMode::HORIZON));
    rx_frame.channels[RxChannel::AUX2] = 1800;
    rc_modes.update_activated_modes(&rx_frame);
    assert!(rc_modes.is_mode_active(RcMode::HORIZON));
}

#[test]
fn conventional_macs_configure_arm_and_angle() {
    let rc_modes = RcModes::with_macs_conventional();
    assert_eq!(RcMode::ARM, rc_modes.mac(0).mode_id);
    assert_ne!(ModeActivationCondition::default(), rc_modes.mac(1));
}

#[test]
fn rx_channel_normal_types() {
    is_full_no_default::<RxChannel>();
    is_full::<rx_channel::RxChannelRange>();
    is_full::<RxChannels>();
}

#[test]
fn serde_types() {
    // A channel range is two step bytes; they survive a postcard round trip.
    let range = rx_channel::RxChannelRange::from_pwm(1300, 1700);
    let mut buffer = [0u8; 8];
    let used = postcard::to_slice(&(range.start, range.end), &mut buffer).unwrap();
    let (start, end): (u8, u8) = postcard::from_bytes(used).unwrap();
    assert_eq!(range, rx_channel::RxChannelRange::new().with_start(start).with_end(end));
}

#[test]
fn storage_types() {
    // Stored, a channel range takes one byte per step.
    let range = rx_channel::RxChannelRange::from_pwm(1300, 1700);
    let mut buffer = [0u8; 8];
    let used = postcard::to_slice(&(range.start, range.end), &mut buffer).unwrap();
    assert_eq!(&[16u8, 32][..], used);
}

#[test]
fn map_rpy_pwm_to_plus_minus_1000() {
    assert_eq!(-1000, RxChannel::map_rpy_pwm_to_plus_minus_1000(1000));
    assert_eq!(-500, RxChannel::map_rpy_pwm_to_plus_minus_1000(1250));
    assert_eq!(0, RxChannel::map_rpy_pwm_to_plus_minus_1000(1500));
    assert_eq!(500, RxChannel::map_rpy_pwm_to_plus_minus_1000(1750));
    assert_eq!(1000, RxChannel::map_rpy_pwm_to_plus_minus_1000(2000));
}

#[test]
fn map_throttle_pwm_to_0_to_1000() {
    assert_eq!(0, RxChannel::map_throttle_pwm_to_0_to_1000(1000));
    assert_eq!(250, RxChannel::map_throttle_pwm_to_0_to_1000(1250));
    assert_eq!(500, RxChannel::map_throttle_pwm_to_0_to_1000(1500));
    assert_eq!(750, RxChannel::map_throttle_pwm_to_0_to_1000(1750));
    assert_eq!(1000, RxChannel::map_throttle_pwm_to_0_to_1000(2000));
}

#[test]
fn channel_range_steps() {
    assert_eq!(0, rx_channel::RxChannelRange::pwm_to_step(800));
    assert_eq!(24, rx_channel::RxChannelRange::pwm_to_step(1500));
    assert_eq!(48, rx_channel::RxChannelRange::pwm_to_step(2500));
    assert_eq!(1500, rx_channel::RxChannelRange::step_to_pwm(24));
    let range = rx_channel::RxChannelRange::from_pwm(1500, 2000);
    assert_eq!((1500, 2000), range.pwm_range());
    assert!(rx_channel::RxChannelRange::is_range_active(1500, range.start, range.end));
    assert!(!rx_channel::RxChannelRange::is_range_active(2000, range.start, range.end));
}

#[test]
fn rx_channels_failsafe_values() {
    let channels = RxChannels::default();
    assert_eq!(1500, channels.channel(RxChannel::ROLL_U8));
    assert_eq!(1000, channels.channel(RxChannel::THROTTLE_U8));
    assert_eq!(1000, channels.channel(40));
}

#[test]
fn rx_controls_pwm_bands() {
    assert!(RxControlsPwm::pwm_is_low(1000));
    assert!(RxControlsPwm::pwm_is_mid(1500));
    assert!(RxControlsPwm::pwm_is_high(2000));
    assert!(!RxControlsPwm::pwm_is_high(1500));
}

#[test]
fn rx_config_radio_types() {
    let radio = Radio::new(RadioType::Ibus);
    assert!(matches!(radio, Radio::Ibus(_)));
    assert_eq!(RxFrameType::from_u8(0x16), RxFrameType::RcChannels);
    assert_eq!(RxFrameType::from_u8(0), RxFrameType::Heartbeat);
}

#[test]
fn rx_frame_normal_types() {
    is_full::<RxChannelsLinkStatus>();
    is_full::<RxLinkStatus>();
}

#[test]
fn rx_frame_failsafe_values() {
    let mut frame = RxChannelsLinkStatus::default();
    frame.channels = [1234; 16];
    frame.set_channels_to_failsafe_values();
    assert_eq!(RxChannels::default().0, frame.channels);
}

#[test]
fn rx_radio_normal_types() {
    is_full_no_default::<Radio>();
}

#[test]
fn radio_feeds_bytes_to_its_decoder() {
    let mut radio = Radio::new(RadioType::Sbus);
    let stream: [u8; 25] = [
        0x0F, 0xE0, 0x03, 0x1F, 0x58, 0xC0, 0x07, 0x16, 0xB0, 0x80, 0x05, 0x2C, 0x60, 0x01, 0x0B, 0xF8, 0xC0,
        0x07, 0x00, 0x00, 0x00, 0x00, 0x00, 0x03, 0x00,
    ];
    let mut complete = false;
    for &byte in stream.iter() {
        complete = radio.on_byte_received(byte);
    }
    assert!(complete);
    assert_eq!(992, radio.rx_frame().channels[0]);
    assert_eq!(352, radio.rx_frame().channels[2]);
}

#[test]
fn rx_receiver_normal_types() {
    is_full::<Eui48>();
    is_full::<RxReceiverCommon>();
}

#[test]
fn rx_receiver_test_new() {
    let receiver = RxReceiverCommon::new();
    assert!(!receiver.packet_received);
}

#[test]
fn rx_receiver_frame_defaults() {
    let mut frame = rx_receiver::RxFrame::new();
    assert_eq!(1000, frame.auxiliary_channel(0));
    assert_eq!(1000, frame.auxiliary_channel(100));
    frame.channels[RxChannel::AUX1] = 1750;
    frame.channels[RxChannel::AUX2] = 1125;
    assert_eq!(1750, frame.auxiliary_channel(RxChannel::AUX1_U8));
    assert_eq!(1125, frame.auxiliary_channel(RxChannel::AUX2_U8));
    assert_eq!(1000, frame.auxiliary_channel(3));
    assert_eq!(1000, frame.auxiliary_channel(16));
    let _ = MockRadio::new().rx_frame();
}

#[test]
fn rx_channels_indexing() {
    let channels = RxChannels::default();
    assert_eq!(1500, channels[RxChannel::ROLL]);
    assert_eq!(1000, channels[RxChannel::THROTTLE]);
    assert_eq!([1500u16, 1500, 1000], channels[0..3]);
}

#[test]
fn update_evaluates_the_listed_conditions() {
    // A condition in slot 1 with slot 0 left empty is evaluated.
    let mut rc_modes = RcModes::new();
    rc_modes.set_mac(
        1,
        ModeActivationCondition::from_range_mode_channel(
            RxChannelRange::from_pwm(1500, 2000),
            RcMode::ARM,
            RxChannel::AUX1_U8,
        ),
    );
    rc_modes.analyze_macs();
    assert_eq!(1, rc_modes.active_mac_count);
    assert_eq!(1, rc_modes.active_macs[0]);
    let mut rx_frame = RxChannelsLinkStatus::default();
    rx_frame.channels[RxChannel::AUX1] = 1750;
    rc_modes.update_activated_modes(&rx_frame);
    assert!(rc_modes.is_mode_active(RcMode::ARM));
}

#[test]
fn rc_mode_lookups_round_trip() {
    for id in 0..RcMode::COUNT {
        let by_id = RcMode::find_rc_mode_by_id(id).unwrap();
        let by_permanent = RcMode::find_rc_mode_by_permanent_id(by_id.permanent_id).unwrap();
        assert_eq!(by_id, by_permanent);
    }
    assert!(RcMode::find_rc_mode_by_permanent_id(RcMode::PERMANENT_ID_NONE).is_none());
    assert!(RcMode::find_rc_mode_by_permanent_id(9).is_none());
}
