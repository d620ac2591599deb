use heatpump::codes::{FanSpeed, HeatPumpMode, ISeeMode, VaneDirection, WideVaneDirection};
use heatpump::packet::Packet;
use heatpump::setting::HeatPumpSetting;
use heatpump::status::{
    decode_fine_temperature, decode_temperature, status_to_state, HeatPumpStatus, LinkState,
    LocalSettings, StatusError, LED_DEFAULT_BRIGHTNESS, UNKNOWN_TEMPERATURE_HALF_C,
};

fn report(payload: [u8; 16]) -> Packet {
    let mut packet = Packet::new_type_size(0x62, 16);
    packet.data = payload.to_vec();
    packet.set_checksum();
    packet
}

fn command(brightness: Option<u8>, power: Option<bool>) -> HeatPumpSetting {
    let mut setting = HeatPumpSetting::new();
    setting.controller_led_brightness = brightness;
    setting.poweron = power;
    setting
}

#[test]
fn new_status_holds_sentinels() {
    let status = HeatPumpStatus::new();
    assert!(!status.connected);
    assert!(!status.poweron);
    assert!(!status.isee_present);
    assert_eq!(status.mode, HeatPumpMode::Off);
    assert_eq!(status.desired_temperature_half_c, -1998);
    assert_eq!(status.fan_speed, FanSpeed::Auto);
    assert_eq!(status.vane, VaneDirection::Auto);
    assert_eq!(status.widevane, WideVaneDirection::Mid);
    assert_eq!(status.isee_mode, ISeeMode::Unknown);
    assert_eq!(status.room_temperature_half_c, UNKNOWN_TEMPERATURE_HALF_C);
    assert_eq!(status.room_temperature_half_c_2, UNKNOWN_TEMPERATURE_HALF_C);
    assert_eq!(status.operating, 0);
    assert_eq!(status.error_data, None);
    assert!(status.last_status_packets.is_empty());
    assert_eq!(status.desired_settings, None);
    assert_eq!(status.controller_led_brightness, LED_DEFAULT_BRIGHTNESS);
    assert_eq!(status.controller_led_brightness, 20);
    assert_eq!(status.controller_location, None);
    assert_eq!(status.link_state(), LinkState::Disconnected);
}

#[test]
fn decode_temperature_exact_values() {
    assert_eq!(decode_temperature(22, 0), 64);
    assert_eq!(decode_temperature(0, 0), 20);
    assert_eq!(decode_temperature(255, 0), 530);
    assert_eq!(decode_temperature(22, 172), 44);
    assert_eq!(decode_temperature(22, 128), 0);
    assert_eq!(decode_temperature(22, 1), -127);
    assert_eq!(decode_temperature(22, 255), 127);
    assert_eq!(decode_fine_temperature(0), -1998);
    assert_eq!(decode_fine_temperature(171), 43);
}

#[test]
fn settings_report_is_taken_over() {
    let mut status = HeatPumpStatus::new();
    let packet = report([2, 0, 0, 1, 8, 22, 0, 3, 0, 0, 3, 0, 0, 0, 0, 0]);
    assert_eq!(status_to_state(&packet, &mut status), Ok(()));
    assert!(status.poweron);
    assert_eq!(status.desired_temperature_half_c, 64);
    assert!(status.isee_present);
    assert_eq!(status.mode, HeatPumpMode::Off);
    assert_eq!(status.fan_speed, FanSpeed::Auto);
    assert_eq!(status.vane, VaneDirection::Midpoint);
    assert_eq!(status.widevane, WideVaneDirection::Mid);
    assert_eq!(status.last_status_packets.get(&2), Some(&packet.data));
    assert_eq!(status.last_status_packets.len(), 1);
}

#[test]
fn standby_report_is_kept_raw_only() {
    let mut status = HeatPumpStatus::new();
    let packet = report([9, 0, 0, 1, 8, 22, 0, 3, 0, 0, 3, 0, 0, 0, 0, 0]);
    assert_eq!(status_to_state(&packet, &mut status), Ok(()));
    let mut expected = HeatPumpStatus::new();
    expected.last_status_packets.insert(9, packet.data.clone());
    assert_eq!(status, expected);
}

#[test]
fn settings_report_fine_temperature_wins() {
    let mut status = HeatPumpStatus::new();
    let packet = report([2, 0, 0, 0, 0x0b, 22, 2, 7, 0, 0, 0x84, 172, 0, 0, 0, 0]);
    assert_eq!(status_to_state(&packet, &mut status), Ok(()));
    assert!(!status.poweron);
    assert!(status.isee_present);
    assert_eq!(status.mode, HeatPumpMode::Cool);
    assert_eq!(status.desired_temperature_half_c, 44);
    assert_eq!(status.fan_speed, FanSpeed::Low);
    assert_eq!(status.vane, VaneDirection::Swing);
    assert_eq!(status.widevane, WideVaneDirection::Right);
}

#[test]
fn settings_report_unrecognised_values_read_as_unknown() {
    let mut status = HeatPumpStatus::new();
    let packet = report([2, 0, 0, 1, 5, 0, 4, 6, 0, 0, 9, 0, 0, 0, 0, 0]);
    assert_eq!(status_to_state(&packet, &mut status), Ok(()));
    assert!(!status.isee_present);
    assert_eq!(status.mode, HeatPumpMode::Unknown);
    assert_eq!(status.fan_speed, FanSpeed::Unknown);
    assert_eq!(status.vane, VaneDirection::Unknown);
    assert_eq!(status.widevane, WideVaneDirection::Unknown);
}

#[test]
fn room_temperature_report() {
    let mut status = HeatPumpStatus::new();
    let packet = report([3, 0, 0, 11, 0, 0, 170, 171, 2, 0, 0, 0, 0, 0, 0, 0]);
    assert_eq!(status_to_state(&packet, &mut status), Ok(()));
    assert_eq!(status.room_temperature_half_c, 42);
    assert_eq!(status.room_temperature_half_c_2, 43);
    assert_eq!(status.isee_mode, ISeeMode::Direct);
}

#[test]
fn room_temperature_report_legacy() {
    let mut status = HeatPumpStatus::new();
    let packet = report([3, 0, 0, 11, 0, 0, 0, 0, 7, 0, 0, 0, 0, 0, 0, 0]);
    assert_eq!(status_to_state(&packet, &mut status), Ok(()));
    assert_eq!(status.room_temperature_half_c, 42);
    assert_eq!(status.room_temperature_half_c_2, -1998);
    assert_eq!(status.isee_mode, ISeeMode::Unknown);
}

#[test]
fn error_report_is_stored_and_cleared() {
    let mut status = HeatPumpStatus::new();
    let fault = report([4, 0, 0, 0, 0x11, 0x22, 0, 0, 0, 0, 0, 0, 0, 0, 0, 0]);
    assert_eq!(status_to_state(&fault, &mut status), Ok(()));
    assert_eq!(status.error_data, Some(fault.data.clone()));
    let fine = report([4, 0, 0, 0, 0x80, 0, 0, 0, 0, 0, 0, 0, 0, 0, 0, 0]);
    assert_eq!(status_to_state(&fine, &mut status), Ok(()));
    assert_eq!(status.error_data, None);
    assert_eq!(status.last_status_packets.get(&4), Some(&fine.data));
}

#[test]
fn timers_report_changes_no_field() {
    let mut status = HeatPumpStatus::new();
    let packet = report([5, 1, 2, 3, 4, 5, 6, 7, 8, 9, 10, 11, 12, 13, 14, 15]);
    assert_eq!(status_to_state(&packet, &mut status), Ok(()));
    let mut expected = HeatPumpStatus::new();
    expected.last_status_packets.insert(5, packet.data.clone());
    assert_eq!(status, expected);
}

#[test]
fn misc_info_report() {
    let mut status = HeatPumpStatus::new();
    let packet = report([6, 0, 0, 9, 1, 0, 0, 0, 0, 0, 0, 0, 0, 0, 0, 0]);
    assert_eq!(status_to_state(&packet, &mut status), Ok(()));
    assert_eq!(status.operating, 1);
}

#[test]
fn unknown_category_is_kept_raw_only() {
    let mut status = HeatPumpStatus::new();
    let packet = report([0x20, 1, 2, 3, 4, 5, 6, 7, 8, 9, 10, 11, 12, 13, 14, 15]);
    assert_eq!(status_to_state(&packet, &mut status), Ok(()));
    let mut expected = HeatPumpStatus::new();
    expected.last_status_packets.insert(0x20, packet.data.clone());
    assert_eq!(status, expected);
}

#[test]
fn wrong_type_is_refused() {
    let mut status = HeatPumpStatus::new();
    let mut packet = report([2, 0, 0, 1, 8, 22, 0, 3, 0, 0, 3, 0, 0, 0, 0, 0]);
    packet.packet_type = 0x61;
    packet.set_checksum();
    assert_eq!(status_to_state(&packet, &mut status), Err(StatusError::WrongType));
    assert_eq!(status, HeatPumpStatus::new());
}

#[test]
fn wrong_length_is_refused() {
    let mut status = HeatPumpStatus::new();
    let mut packet = Packet::new_type_size(0x62, 15);
    packet.data[0] = 2;
    packet.set_checksum();
    assert_eq!(status_to_state(&packet, &mut status), Err(StatusError::WrongLength));
    assert_eq!(status, HeatPumpStatus::new());
    let empty = Packet::new_type_size(0x62, 0);
    assert_eq!(status_to_state(&empty, &mut status), Err(StatusError::WrongLength));
    let long = Packet::new_type_size(0x62, 17);
    assert_eq!(status_to_state(&long, &mut status), Err(StatusError::WrongLength));
}

#[test]
fn wrong_type_is_reported_before_wrong_length() {
    let mut status = HeatPumpStatus::new();
    let packet = Packet::new_type_size(0x42, 3);
    assert_eq!(status_to_state(&packet, &mut status), Err(StatusError::WrongType));
}

#[test]
fn decode_idempotence() {
    let packet = report([2, 0, 0, 1, 3, 22, 5, 4, 0, 0, 2, 180, 0, 0, 0, 0]);
    let mut once = HeatPumpStatus::new();
    assert_eq!(status_to_state(&packet, &mut once), Ok(()));
    let mut twice = HeatPumpStatus::new();
    assert_eq!(status_to_state(&packet, &mut twice), Ok(()));
    assert_eq!(once, twice);
    assert_eq!(status_to_state(&packet, &mut twice), Ok(()));
    assert_eq!(once, twice);
}

#[test]
fn later_report_replaces_earlier_of_same_category() {
    let mut status = HeatPumpStatus::new();
    let first = report([6, 0, 0, 0, 1, 0, 0, 0, 0, 0, 0, 0, 0, 0, 0, 0]);
    let second = report([6, 0, 0, 0, 0, 0, 0, 0, 0, 0, 0, 0, 0, 0, 0, 0]);
    assert_eq!(status_to_state(&first, &mut status), Ok(()));
    assert_eq!(status_to_state(&second, &mut status), Ok(()));
    assert_eq!(status.operating, 0);
    assert_eq!(status.last_status_packets.len(), 1);
    assert_eq!(status.last_status_packets.get(&6), Some(&second.data));
}

#[test]
fn command_overwrite_semantics() {
    let mut status = HeatPumpStatus::new();
    let mut a = HeatPumpSetting::new();
    a.poweron = Some(true);
    a.mode = Some(HeatPumpMode::Heat);
    a.controller_led_brightness = Some(3);
    let mut b = HeatPumpSetting::new();
    b.fan_speed = Some(FanSpeed::Quiet);
    status.deposit_command(a);
    status.deposit_command(b.duplicate());
    assert_eq!(status.desired_settings, Some(b.duplicate()));
    assert_eq!(status.take_pending(), Some(b));
}

#[test]
fn take_pending_leaves_the_command() {
    let mut status = HeatPumpStatus::new();
    assert_eq!(status.take_pending(), None);
    status.deposit_command(command(Some(4), Some(true)));
    assert_eq!(status.take_pending(), Some(command(Some(4), Some(true))));
    assert_eq!(status.take_pending(), Some(command(Some(4), Some(true))));
    assert_eq!(status.desired_settings, Some(command(Some(4), Some(true))));
}

#[test]
fn read_snapshot_is_a_copy() {
    let mut status = HeatPumpStatus::new();
    let packet = report([4, 0, 0, 0, 0x11, 0, 0, 0, 0, 0, 0, 0, 0, 0, 0, 0]);
    assert_eq!(status_to_state(&packet, &mut status), Ok(()));
    status.deposit_command(command(Some(4), None));
    status.set_controller_settings(7, Some(String::from("loft")));
    let copy = status.read_snapshot();
    assert_eq!(copy, status);
    status.connected = true;
    assert!(!copy.connected);
}

#[test]
fn local_only_command_is_cleared() {
    let mut status = HeatPumpStatus::new();
    let mut setting = command(Some(4), None);
    setting.controller_location = Some(String::from("loft"));
    status.deposit_command(setting);
    let local = status.apply_local_fields_and_clear();
    assert_eq!(
        local,
        LocalSettings {
            controller_led_brightness: Some(4),
            controller_location: Some(String::from("loft")),
        }
    );
    assert_eq!(status.desired_settings, None);
    assert_eq!(status.controller_led_brightness, 20);
}

#[test]
fn local_fields_are_stripped_from_a_command_that_needs_a_packet() {
    let mut status = HeatPumpStatus::new();
    status.deposit_command(command(Some(4), Some(true)));
    let local = status.apply_local_fields_and_clear();
    assert_eq!(local.controller_led_brightness, Some(4));
    assert_eq!(local.controller_location, None);
    assert_eq!(status.desired_settings, Some(command(None, Some(true))));
}

#[test]
fn nothing_pending_gives_no_local_fields() {
    let mut status = HeatPumpStatus::new();
    let local = status.apply_local_fields_and_clear();
    assert_eq!(
        local,
        LocalSettings { controller_led_brightness: None, controller_location: None }
    );
    assert_eq!(status, HeatPumpStatus::new());
}

#[test]
fn acknowledge_keeps_local_fields() {
    let mut status = HeatPumpStatus::new();
    status.deposit_command(command(Some(4), Some(true)));
    status.acknowledge_command();
    assert_eq!(status.desired_settings, Some(command(Some(4), None)));
    let mut idle = HeatPumpStatus::new();
    idle.acknowledge_command();
    assert_eq!(idle, HeatPumpStatus::new());
}

#[test]
fn controller_settings_are_taken_over() {
    let mut status = HeatPumpStatus::new();
    status.set_controller_settings(42, Some(String::from("kitchen")));
    assert_eq!(status.controller_led_brightness, 42);
    assert_eq!(status.controller_location, Some(String::from("kitchen")));
    status.set_controller_settings(0, None);
    assert_eq!(status.controller_location, None);
}
