use heatpump::codes::{
    FanSpeed, HeatPumpMode, ISeeMode, StatusPacketType, VaneDirection, WideVaneDirection,
    UNKNOWN_CODE, UNKNOWN_REPR,
};

#[test]
fn status_packet_type_codes() {
    assert_eq!(StatusPacketType::Settings.code(), 2);
    assert_eq!(StatusPacketType::RoomTemperature.code(), 3);
    assert_eq!(StatusPacketType::ErrorCodeMaybe.code(), 4);
    assert_eq!(StatusPacketType::Timers.code(), 5);
    assert_eq!(StatusPacketType::MiscInfo.code(), 6);
    assert_eq!(StatusPacketType::StandbyMode.code(), 9);
}

#[test]
fn status_packet_type_from_repr() {
    assert_eq!(StatusPacketType::from_repr(2), Some(StatusPacketType::Settings));
    assert_eq!(StatusPacketType::from_repr(9), Some(StatusPacketType::StandbyMode));
    assert_eq!(StatusPacketType::from_repr(0), None);
    assert_eq!(StatusPacketType::from_repr(7), None);
    assert_eq!(StatusPacketType::from_repr(8), None);
    assert_eq!(StatusPacketType::from_repr(258), None);
}

#[test]
fn status_packet_types_in_polling_order() {
    assert_eq!(
        StatusPacketType::all(),
        vec![
            StatusPacketType::Settings,
            StatusPacketType::RoomTemperature,
            StatusPacketType::ErrorCodeMaybe,
            StatusPacketType::Timers,
            StatusPacketType::MiscInfo,
            StatusPacketType::StandbyMode,
        ]
    );
}

#[test]
fn mode_codes_and_back() {
    let all = [
        (HeatPumpMode::Off, 0u8),
        (HeatPumpMode::Heat, 1),
        (HeatPumpMode::Dry, 2),
        (HeatPumpMode::Cool, 3),
        (HeatPumpMode::Fan, 7),
        (HeatPumpMode::Auto, 8),
    ];
    for (mode, code) in all {
        assert_eq!(mode.code(), code);
        assert_eq!(HeatPumpMode::from_byte(code), mode);
        assert_eq!(HeatPumpMode::from_repr(code as usize), Some(mode));
    }
    assert_eq!(HeatPumpMode::from_byte(4), HeatPumpMode::Unknown);
    assert_eq!(HeatPumpMode::from_byte(255), HeatPumpMode::Unknown);
    assert_eq!(HeatPumpMode::from_repr(4), None);
}

#[test]
fn fan_speed_codes_and_back() {
    let all = [
        (FanSpeed::Auto, 0u8),
        (FanSpeed::Quiet, 1),
        (FanSpeed::Low, 2),
        (FanSpeed::Med, 3),
        (FanSpeed::High, 5),
        (FanSpeed::VeryHigh, 6),
    ];
    for (speed, code) in all {
        assert_eq!(speed.code(), code);
        assert_eq!(FanSpeed::from_byte(code), speed);
    }
    assert_eq!(FanSpeed::from_byte(4), FanSpeed::Unknown);
    assert_eq!(FanSpeed::from_repr(4), None);
}

#[test]
fn vane_codes_and_back() {
    let all = [
        (VaneDirection::Auto, 0u8),
        (VaneDirection::Horizontal, 1),
        (VaneDirection::MidHorizontal, 2),
        (VaneDirection::Midpoint, 3),
        (VaneDirection::MidVertical, 4),
        (VaneDirection::Vertical, 5),
        (VaneDirection::Swing, 7),
    ];
    for (vane, code) in all {
        assert_eq!(vane.code(), code);
        assert_eq!(VaneDirection::from_byte(code), vane);
    }
    assert_eq!(VaneDirection::from_byte(6), VaneDirection::Unknown);
}

#[test]
fn wide_vane_codes_and_back() {
    let all = [
        (WideVaneDirection::FarLeft, 1u8),
        (WideVaneDirection::Left, 2),
        (WideVaneDirection::Mid, 3),
        (WideVaneDirection::Right, 4),
        (WideVaneDirection::FarRight, 5),
        (WideVaneDirection::Split, 8),
        (WideVaneDirection::Swing, 12),
    ];
    for (vane, code) in all {
        assert_eq!(vane.code(), code);
        assert_eq!(WideVaneDirection::from_byte(code), vane);
    }
    assert_eq!(WideVaneDirection::from_byte(0), WideVaneDirection::Unknown);
    assert_eq!(WideVaneDirection::from_byte(0x80), WideVaneDirection::Unknown);
}

#[test]
fn isee_mode_codes_and_back() {
    assert_eq!(ISeeMode::from_byte(1), ISeeMode::Indirect);
    assert_eq!(ISeeMode::from_byte(2), ISeeMode::Direct);
    assert_eq!(ISeeMode::from_byte(0), ISeeMode::Unknown);
    assert_eq!(ISeeMode::from_byte(3), ISeeMode::Unknown);
    assert_eq!(ISeeMode::Indirect.code(), 1);
    assert_eq!(ISeeMode::Direct.code(), 2);
}

#[test]
fn unknown_has_its_own_discriminant() {
    assert_eq!(UNKNOWN_REPR, 999);
    assert_eq!(UNKNOWN_CODE, 231);
    assert_eq!(WideVaneDirection::from_repr(999), Some(WideVaneDirection::Unknown));
    assert_eq!(ISeeMode::from_repr(999), Some(ISeeMode::Unknown));
    assert_eq!(HeatPumpMode::from_repr(999), Some(HeatPumpMode::Unknown));
    assert_eq!(WideVaneDirection::Unknown.code(), 231);
    assert_eq!(HeatPumpMode::Unknown.code(), 231);
    assert_eq!(FanSpeed::Unknown.code(), 231);
    assert_eq!(VaneDirection::Unknown.code(), 231);
    assert_eq!(ISeeMode::Unknown.code(), 231);
    assert_eq!(WideVaneDirection::from_byte(231), WideVaneDirection::Unknown);
    assert_eq!(HeatPumpMode::from_byte(231), HeatPumpMode::Unknown);
}

#[test]
fn every_byte_reads_as_some_value() {
    let mut value: u16 = 0;
    while value < 256 {
        let byte = value as u8;
        let mode = HeatPumpMode::from_byte(byte);
        if mode != HeatPumpMode::Unknown {
            assert_eq!(mode.code(), byte);
        }
        let vane = WideVaneDirection::from_byte(byte);
        if vane != WideVaneDirection::Unknown {
            assert_eq!(vane.code(), byte);
        }
        value += 1;
    }
}
