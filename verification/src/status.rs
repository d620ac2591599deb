//! The latest known state of the appliance, the decoding of status frames
//! into it, and the one pending change of settings that is kept beside it.
//!
//! Temperatures are counted in half degrees Celsius.

use crate::codes::{
    FanSpeed, HeatPumpMode, ISeeMode, StatusPacketType, VaneDirection, WideVaneDirection,
};
use crate::packet::{Frame, Packet, TYPE_STATUS_REPLY};
use crate::setting::{spec_encode_temperature, HeatPumpSetting, SettingModel, PAYLOAD_SIZE};
use std::collections::HashMap;
use vstd::prelude::*;

verus! {

/// A temperature that is not known: -999 degrees, in half degrees.
pub const UNKNOWN_TEMPERATURE_HALF_C: i16 = -1998;

/// Brightness of the indicator until another one is set.
pub const LED_DEFAULT_BRIGHTNESS: u8 = 20;

/// Value of the marker byte of an error report that says "no error".
pub const NO_ERROR_MARKER: u8 = 0x80;

/// Bit of the mode byte that tells that a presence sensor is there.
pub const ISEE_BIT: u8 = 0x08;

/// Bit of the wide vane byte that is left out of the position.
pub const WIDEVANE_ADJUST_BIT: u8 = 0x80;

/// The temperature that a pair of bytes carries, in half degrees: the fine
/// byte minus 128 where it is not zero, else the legacy byte plus 10, in
/// whole degrees.
pub open spec fn spec_decode_temperature(legacy: u8, fine: u8) -> i16 {
    if fine != 0 {
        (fine - 128) as i16
    } else {
        (2 * (legacy + 10)) as i16
    }
}

/// The temperature that a fine byte alone carries, in half degrees; unknown
/// where the byte is zero.
pub open spec fn spec_decode_fine_temperature(fine: u8) -> i16 {
    if fine != 0 {
        (fine - 128) as i16
    } else {
        UNKNOWN_TEMPERATURE_HALF_C
    }
}

/// Reads a temperature from its two bytes. The fine byte wins where it is not
/// zero.
#[verifier::when_used_as_spec(spec_decode_temperature)]
pub fn decode_temperature(legacy: u8, fine: u8) -> (half_c: i16)
    ensures
        half_c == spec_decode_temperature(legacy, fine),
        fine != 0 ==> half_c == fine - 128,
        fine == 0 ==> half_c == 2 * (legacy + 10),
{
    if fine != 0 {
        fine as i16 - 128
    } else {
        2 * (legacy as i16 + 10)
    }
}

/// Reads a temperature that has a fine byte only.
#[verifier::when_used_as_spec(spec_decode_fine_temperature)]
pub fn decode_fine_temperature(fine: u8) -> (half_c: i16)
    ensures
        half_c == spec_decode_fine_temperature(fine),
        fine != 0 ==> half_c == fine - 128,
{
    if fine != 0 {
        fine as i16 - 128
    } else {
        UNKNOWN_TEMPERATURE_HALF_C
    }
}

/// A temperature written for a change of settings reads back unchanged from
/// the byte that carried it, whatever the legacy byte beside it holds. The one
/// temperature left out is -64 degrees, whose byte is zero and so gives way to
/// the legacy byte.
pub proof fn lemma_temperature_round_trip(half_c: i8, legacy: u8)
    requires
        half_c != -128,
    ensures
        spec_decode_temperature(legacy, spec_encode_temperature(half_c)) == half_c,
{
}

/// A settings report that carries in its fine byte what a change of settings
/// wrote for its temperature reads as that temperature.
pub proof fn lemma_setting_temperature_read_back(
    setting: SettingModel,
    s: StatusModel,
    report: Seq<u8>,
)
    requires
        setting.desired_temperature_half_c is Some,
        setting.desired_temperature_half_c != Some(-128i8),
        report.len() == PAYLOAD_SIZE,
        report[11] == setting.payload()[14],
    ensures
        s.with_settings(report).desired_temperature_half_c
            == setting.desired_temperature_half_c->Some_0,
{
}

/// The presence bit of the mode byte is the code of `Auto`. As the bit is
/// taken out before the mode is read, no settings report reads as `Auto`: a
/// mode byte of 8 reads as `Off` with a presence sensor.
pub proof fn lemma_auto_is_never_reported(s: StatusModel, report: Seq<u8>)
    ensures
        s.with_settings(report).mode != HeatPumpMode::Auto,
        report[4] == 8 ==> s.with_settings(report).mode == HeatPumpMode::Off && s.with_settings(
            report,
        ).isee_present,
{
    let b = report[4];
    assert((b & !ISEE_BIT) != 8) by (bit_vector);
    assert(b == 8 ==> (b & !ISEE_BIT) == 0 && (b & ISEE_BIT) > 0) by (bit_vector);
}

/// Why a frame is not a status report.
#[derive(Clone, Copy, Debug, PartialEq, Eq, Structural)]
pub enum StatusError {
    /// The frame's type is not that of a status reply.
    WrongType,
    /// The payload is not sixteen bytes long.
    WrongLength,
}

/// The state of the link to the appliance.
#[derive(Clone, Copy, Debug, PartialEq, Eq, Structural)]
pub enum LinkState {
    Disconnected,
    Connected,
}

/// The appliance's state as a mathematical value: what a `HeatPumpStatus`
/// stands for.
pub ghost struct StatusModel {
    pub connected: bool,
    pub poweron: bool,
    pub isee_present: bool,
    pub mode: HeatPumpMode,
    pub desired_temperature_half_c: i16,
    pub fan_speed: FanSpeed,
    pub vane: VaneDirection,
    pub widevane: WideVaneDirection,
    pub isee_mode: ISeeMode,
    pub room_temperature_half_c: i16,
    pub room_temperature_half_c_2: i16,
    pub operating: u8,
    pub error_data: Option<Seq<u8>>,
    pub last_status_packets: Map<u8, Seq<u8>>,
    pub desired_settings: Option<SettingModel>,
    pub controller_led_brightness: u8,
    pub controller_location: Option<Seq<char>>,
}

impl StatusModel {
    /// The state before anything is known of the appliance.
    pub open spec fn initial() -> StatusModel {
        StatusModel {
            connected: false,
            poweron: false,
            isee_present: false,
            mode: HeatPumpMode::Off,
            desired_temperature_half_c: UNKNOWN_TEMPERATURE_HALF_C,
            fan_speed: FanSpeed::Auto,
            vane: VaneDirection::Auto,
            widevane: WideVaneDirection::Mid,
            isee_mode: ISeeMode::Unknown,
            room_temperature_half_c: UNKNOWN_TEMPERATURE_HALF_C,
            room_temperature_half_c_2: UNKNOWN_TEMPERATURE_HALF_C,
            operating: 0,
            error_data: None,
            last_status_packets: Map::empty(),
            desired_settings: None,
            controller_led_brightness: LED_DEFAULT_BRIGHTNESS,
            controller_location: None,
        }
    }

    /// The state after a settings report.
    pub open spec fn with_settings(self, data: Seq<u8>) -> StatusModel {
        StatusModel {
            poweron: data[3] != 0,
            isee_present: data[4] & ISEE_BIT > 0,
            mode: HeatPumpMode::spec_from_byte(data[4] & !ISEE_BIT),
            desired_temperature_half_c: spec_decode_temperature(data[5], data[11]),
            fan_speed: FanSpeed::spec_from_byte(data[6]),
            vane: VaneDirection::spec_from_byte(data[7]),
            widevane: WideVaneDirection::spec_from_byte(data[10] & !WIDEVANE_ADJUST_BIT),
            ..self
        }
    }

    /// The state after a room temperature report.
    pub open spec fn with_room_temperature(self, data: Seq<u8>) -> StatusModel {
        StatusModel {
            room_temperature_half_c: spec_decode_temperature(data[3], data[6]),
            room_temperature_half_c_2: spec_decode_fine_temperature(data[7]),
            isee_mode: ISeeMode::spec_from_byte(data[8]),
            ..self
        }
    }

    /// The state after an error report: the marker byte clears the stored
    /// report, any other value stores the payload.
    pub open spec fn with_error_report(self, data: Seq<u8>) -> StatusModel {
        StatusModel {
            error_data: if data[4] == NO_ERROR_MARKER {
                None
            } else {
                Some(data)
            },
            ..self
        }
    }

    /// The state after a report of miscellaneous information.
    pub open spec fn with_misc_info(self, data: Seq<u8>) -> StatusModel {
        StatusModel { operating: data[4], ..self }
    }

    /// The state after the typed fields of a report have been taken over.
    /// Timers, standby reports and reports of an unknown category change
    /// none.
    pub open spec fn with_typed_fields(self, data: Seq<u8>) -> StatusModel {
        match StatusPacketType::spec_from_repr(data[0] as int) {
            Some(StatusPacketType::Settings) => self.with_settings(data),
            Some(StatusPacketType::RoomTemperature) => self.with_room_temperature(data),
            Some(StatusPacketType::ErrorCodeMaybe) => self.with_error_report(data),
            Some(StatusPacketType::MiscInfo) => self.with_misc_info(data),
            _ => self,
        }
    }

    /// The state after a status report with the payload `data`: the typed
    /// fields of its category are taken over, and the payload is kept as the
    /// last one seen of its category, whatever the category.
    pub open spec fn apply_status(self, data: Seq<u8>) -> StatusModel {
        let typed = self.with_typed_fields(data);
        StatusModel { last_status_packets: typed.last_status_packets.insert(data[0], data), ..typed }
    }

    /// The state after a status frame was handed in: that after its report
    /// where the frame is a status reply of sixteen payload bytes, else the
    /// state as it was.
    pub open spec fn apply_frame(self, frame: Frame) -> StatusModel {
        if status_fault(frame) is None {
            self.apply_status(frame.data)
        } else {
            self
        }
    }

    /// The state with `command` as the pending change, in place of any that
    /// was pending.
    pub open spec fn deposit(self, command: SettingModel) -> StatusModel {
        StatusModel { desired_settings: Some(command), ..self }
    }

    /// The state once the fields of the pending change that stay on the
    /// controller have been taken out of it. What is left stays pending if it
    /// still needs a frame sent; else nothing is pending any more.
    pub open spec fn without_local_fields(self) -> StatusModel {
        match self.desired_settings {
            Some(command) => StatusModel {
                desired_settings: if command.requires_packet() {
                    Some(command.without_local_fields())
                } else {
                    None
                },
                ..self
            },
            None => self,
        }
    }

    /// The state once the appliance has taken the pending change: only the
    /// fields that stay on the controller are left of it.
    pub open spec fn acknowledged(self) -> StatusModel {
        match self.desired_settings {
            Some(command) => StatusModel {
                desired_settings: Some(command.without_appliance_fields()),
                ..self
            },
            None => self,
        }
    }

    /// The state of the link.
    pub open spec fn link_state(self) -> LinkState {
        if self.connected {
            LinkState::Connected
        } else {
            LinkState::Disconnected
        }
    }
}

/// What keeps a frame from being a status report, if anything. The type is
/// looked at first.
pub open spec fn status_fault(frame: Frame) -> Option<StatusError> {
    if frame.packet_type != TYPE_STATUS_REPLY {
        Some(StatusError::WrongType)
    } else if frame.data.len() != PAYLOAD_SIZE {
        Some(StatusError::WrongLength)
    } else {
        None
    }
}

/// The fields of a pending change that stay on the controller, handed out to
/// be stored.
#[derive(Clone, Debug, PartialEq, Eq)]
pub struct LocalSettings {
    pub controller_led_brightness: Option<u8>,
    pub controller_location: Option<String>,
}

impl LocalSettings {
    /// The label as a sequence of characters.
    pub open spec fn location(&self) -> Option<Seq<char>> {
        match self.controller_location {
            Some(s) => Some(s@),
            None => None,
        }
    }
}

/// The latest known state of the appliance, the controller's own settings and
/// the pending change of settings, if there is one.
#[derive(Clone, Debug, PartialEq, Eq)]
pub struct HeatPumpStatus {
    pub connected: bool,
    pub poweron: bool,
    pub isee_present: bool,
    pub mode: HeatPumpMode,
    pub desired_temperature_half_c: i16,
    pub fan_speed: FanSpeed,
    pub vane: VaneDirection,
    pub widevane: WideVaneDirection,
    pub isee_mode: ISeeMode,
    pub room_temperature_half_c: i16,
    pub room_temperature_half_c_2: i16,
    pub operating: u8,
    pub error_data: Option<Vec<u8>>,
    pub last_status_packets: HashMap<u8, Vec<u8>>,
    pub desired_settings: Option<HeatPumpSetting>,
    pub controller_led_brightness: u8,
    pub controller_location: Option<String>,
}

impl View for HeatPumpStatus {
    type V = StatusModel;

    open spec fn view(&self) -> StatusModel {
        StatusModel {
            connected: self.connected,
            poweron: self.poweron,
            isee_present: self.isee_present,
            mode: self.mode,
            desired_temperature_half_c: self.desired_temperature_half_c,
            fan_speed: self.fan_speed,
            vane: self.vane,
            widevane: self.widevane,
            isee_mode: self.isee_mode,
            room_temperature_half_c: self.room_temperature_half_c,
            room_temperature_half_c_2: self.room_temperature_half_c_2,
            operating: self.operating,
            error_data: match self.error_data {
                Some(v) => Some(v@),
                None => None,
            },
            last_status_packets: self.last_status_packets@.map_values(|v: Vec<u8>| v@),
            desired_settings: match self.desired_settings {
                Some(c) => Some(c@),
                None => None,
            },
            controller_led_brightness: self.controller_led_brightness,
            controller_location: match self.controller_location {
                Some(s) => Some(s@),
                None => None,
            },
        }
    }
}

/// A copy of a byte string.
fn copy_bytes(bytes: &Vec<u8>) -> (copy: Vec<u8>)
    ensures
        copy@ == bytes@,
{
    let mut copy: Vec<u8> = Vec::new();
    let mut i: usize = 0;
    while i < bytes.len()
        invariant
            i <= bytes.len(),
            copy@ == bytes@.take(i as int),
        decreases bytes.len() - i,
    {
        copy.push(bytes[i]);
        i += 1;
    }
    assert(bytes@.take(i as int) =~= bytes@);
    copy
}

impl HeatPumpStatus {
    /// The state before anything is known of the appliance: not connected,
    /// temperatures unknown, nothing pending.
    pub fn new() -> (status: Self)
        ensures
            status@ == StatusModel::initial(),
    {
        let status = Self {
            connected: false,
            poweron: false,
            isee_present: false,
            mode: HeatPumpMode::Off,
            desired_temperature_half_c: UNKNOWN_TEMPERATURE_HALF_C,
            fan_speed: FanSpeed::Auto,
            vane: VaneDirection::Auto,
            widevane: WideVaneDirection::Mid,
            isee_mode: ISeeMode::Unknown,
            room_temperature_half_c: UNKNOWN_TEMPERATURE_HALF_C,
            room_temperature_half_c_2: UNKNOWN_TEMPERATURE_HALF_C,
            operating: 0,
            error_data: None,
            last_status_packets: HashMap::new(),
            desired_settings: None,
            controller_led_brightness: LED_DEFAULT_BRIGHTNESS,
            controller_location: None,
        };
        assert(status@.last_status_packets =~= Map::empty());
        status
    }

    /// The state of the link.
    pub fn link_state(&self) -> (state: LinkState)
        ensures
            state == self@.link_state(),
    {
        if self.connected {
            LinkState::Connected
        } else {
            LinkState::Disconnected
        }
    }

    /// A copy of the whole state, for a reader that must not hold on to the
    /// state itself.
    pub fn read_snapshot(&self) -> (copy: Self)
        ensures
            copy@ == self@,
    {
        Self {
            connected: self.connected,
            poweron: self.poweron,
            isee_present: self.isee_present,
            mode: self.mode,
            desired_temperature_half_c: self.desired_temperature_half_c,
            fan_speed: self.fan_speed,
            vane: self.vane,
            widevane: self.widevane,
            isee_mode: self.isee_mode,
            room_temperature_half_c: self.room_temperature_half_c,
            room_temperature_half_c_2: self.room_temperature_half_c_2,
            operating: self.operating,
            error_data: match &self.error_data {
                Some(v) => Some(copy_bytes(v)),
                None => None,
            },
            last_status_packets: self.last_status_packets.clone(),
            desired_settings: self.take_pending(),
            controller_led_brightness: self.controller_led_brightness,
            controller_location: match &self.controller_location {
                Some(s) => Some(s.clone()),
                None => None,
            },
        }
    }

    /// Makes `command` the pending change. A change that was pending before
    /// is replaced as a whole: nothing of it is merged into the new one.
    pub fn deposit_command(&mut self, command: HeatPumpSetting)
        ensures
            final(self)@ == old(self)@.deposit(command@),
    {
        self.desired_settings = Some(command);
    }

    /// A copy of the pending change, if there is one. The change stays
    /// pending.
    pub fn take_pending(&self) -> (pending: Option<HeatPumpSetting>)
        ensures
            match pending {
                Some(command) => self@.desired_settings == Some(command@),
                None => self@.desired_settings is None,
            },
    {
        match &self.desired_settings {
            Some(command) => Some(command.duplicate()),
            None => None,
        }
    }

    /// Takes the fields that stay on the controller out of the pending change
    /// and hands them out to be stored. What is left of the change stays
    /// pending if it still needs a frame sent to the appliance; else nothing
    /// is pending afterwards. This does not depend on the link.
    pub fn apply_local_fields_and_clear(&mut self) -> (local: LocalSettings)
        ensures
            final(self)@ == old(self)@.without_local_fields(),
            match old(self)@.desired_settings {
                Some(command) => local.controller_led_brightness
                    == command.controller_led_brightness && local.location()
                    == command.controller_location,
                None => local.controller_led_brightness is None && local.location() is None,
            },
    {
        match self.desired_settings.take() {
            Some(command) => {
                let needed = command.requires_packet();
                let HeatPumpSetting {
                    poweron,
                    mode,
                    desired_temperature_half_c,
                    fan_speed,
                    vane,
                    widevane,
                    controller_led_brightness,
                    controller_location,
                } = command;
                if needed {
                    self.desired_settings = Some(
                        HeatPumpSetting {
                            poweron,
                            mode,
                            desired_temperature_half_c,
                            fan_speed,
                            vane,
                            widevane,
                            controller_led_brightness: None,
                            controller_location: None,
                        },
                    );
                }
                LocalSettings { controller_led_brightness, controller_location }
            },
            None => LocalSettings { controller_led_brightness: None, controller_location: None },
        }
    }

    /// Takes the fields that are meant for the appliance out of the pending
    /// change, once the appliance has taken them.
    pub fn acknowledge_command(&mut self)
        ensures
            final(self)@ == old(self)@.acknowledged(),
    {
        match self.desired_settings.take() {
            Some(command) => {
                self.desired_settings = Some(
                    HeatPumpSetting {
                        poweron: None,
                        mode: None,
                        desired_temperature_half_c: None,
                        fan_speed: None,
                        vane: None,
                        widevane: None,
                        controller_led_brightness: command.controller_led_brightness,
                        controller_location: command.controller_location,
                    },
                );
            },
            None => {},
        }
    }

    /// Takes over the controller's own settings as they were read from its
    /// store.
    pub fn set_controller_settings(&mut self, led_brightness: u8, location: Option<String>)
        ensures
            final(self)@ == (StatusModel {
                controller_led_brightness: led_brightness,
                controller_location: match location {
                    Some(s) => Some(s@),
                    None => None,
                },
                ..old(self)@
            }),
    {
        self.controller_led_brightness = led_brightness;
        self.controller_location = location;
    }

    /// Takes over the typed fields of a settings report.
    fn take_settings(&mut self, data: &Vec<u8>)
        requires
            data@.len() == PAYLOAD_SIZE,
        ensures
            final(self)@ == old(self)@.with_settings(data@),
    {
        self.poweron = data[3] != 0;
        self.isee_present = data[4] & ISEE_BIT > 0;
        self.mode = HeatPumpMode::from_byte(data[4] & !ISEE_BIT);
        self.desired_temperature_half_c = decode_temperature(data[5], data[11]);
        self.fan_speed = FanSpeed::from_byte(data[6]);
        self.vane = VaneDirection::from_byte(data[7]);
        self.widevane = WideVaneDirection::from_byte(data[10] & !WIDEVANE_ADJUST_BIT);
    }

    /// Takes over the typed fields of a room temperature report.
    fn take_room_temperature(&mut self, data: &Vec<u8>)
        requires
            data@.len() == PAYLOAD_SIZE,
        ensures
            final(self)@ == old(self)@.with_room_temperature(data@),
    {
        self.room_temperature_half_c = decode_temperature(data[3], data[6]);
        self.room_temperature_half_c_2 = decode_fine_temperature(data[7]);
        self.isee_mode = ISeeMode::from_byte(data[8]);
    }

    /// Takes over an error report.
    fn take_error_report(&mut self, data: &Vec<u8>)
        requires
            data@.len() == PAYLOAD_SIZE,
        ensures
            final(self)@ == old(self)@.with_error_report(data@),
    {
        if data[4] == NO_ERROR_MARKER {
            self.error_data = None;
        } else {
            self.error_data = Some(copy_bytes(data));
        }
    }

    /// Takes over a report of miscellaneous information.
    fn take_misc_info(&mut self, data: &Vec<u8>)
        requires
            data@.len() == PAYLOAD_SIZE,
        ensures
            final(self)@ == old(self)@.with_misc_info(data@),
    {
        self.operating = data[4];
    }

    /// Keeps a payload as the last one seen of its category.
    fn keep_payload(&mut self, data: &Vec<u8>)
        requires
            data@.len() == PAYLOAD_SIZE,
        ensures
            final(self)@ == (StatusModel {
                last_status_packets: old(self)@.last_status_packets.insert(data@[0], data@),
                ..old(self)@
            }),
    {
        let kept = copy_bytes(data);
        self.last_status_packets.insert(data[0], kept);
        assert(self@.last_status_packets =~= old(self)@.last_status_packets.insert(
            data@[0],
            data@,
        ));
    }
}

/// Takes a status frame over into the state. A frame that is no status reply
/// is refused as of the wrong type, one whose payload is not sixteen bytes
/// long as of the wrong length, and both leave the state as it was. Any other
/// frame changes the state as `apply_status` says.
pub fn status_to_state(packet: &Packet, state: &mut HeatPumpStatus) -> (result: Result<
    (),
    StatusError,
>)
    ensures
        final(state)@ == old(state)@.apply_frame(packet@),
        match result {
            Ok(()) => status_fault(packet@) is None,
            Err(e) => status_fault(packet@) == Some(e),
        },
{
    if packet.packet_type != TYPE_STATUS_REPLY {
        return Err(StatusError::WrongType);
    }
    if packet.data.len() != PAYLOAD_SIZE {
        return Err(StatusError::WrongLength);
    }
    let data = &packet.data;
    match StatusPacketType::from_repr(data[0] as usize) {
        Some(StatusPacketType::Settings) => state.take_settings(data),
        Some(StatusPacketType::RoomTemperature) => state.take_room_temperature(data),
        Some(StatusPacketType::ErrorCodeMaybe) => state.take_error_report(data),
        Some(StatusPacketType::MiscInfo) => state.take_misc_info(data),
        _ => {},
    }
    state.keep_payload(data);
    Ok(())
}

/// Taking the same status report over a second time changes nothing.
pub proof fn lemma_apply_status_idempotent(s: StatusModel, data: Seq<u8>)
    ensures
        s.apply_status(data).apply_status(data) == s.apply_status(data),
{
    let once = s.apply_status(data);
    assert(once.apply_status(data).last_status_packets =~= once.last_status_packets);
}

/// Handing the same frame in a second time changes nothing, whether it was
/// taken over or refused; so a state that knows nothing yet holds the same
/// values after the frame was handed in once as after it was handed in
/// twice.
pub proof fn lemma_apply_frame_idempotent(s: StatusModel, frame: Frame)
    ensures
        s.apply_frame(frame).apply_frame(frame) == s.apply_frame(frame),
        StatusModel::initial().apply_frame(frame).apply_frame(frame)
            == StatusModel::initial().apply_frame(frame),
{
    lemma_apply_status_idempotent(s, frame.data);
    lemma_apply_status_idempotent(StatusModel::initial(), frame.data);
}

/// Once the appliance has taken the pending change and the fields that stay
/// on the controller have been handed out, nothing is pending any more, and
/// nothing else of the state has changed.
pub proof fn lemma_applied_command_is_cleared(s: StatusModel)
    ensures
        s.acknowledged().without_local_fields() == (StatusModel { desired_settings: None, ..s }),
{
}

/// Of two changes deposited one after the other, only the second is pending:
/// the state is what it would be had the first never been deposited.
pub proof fn lemma_last_deposit_wins(s: StatusModel, first: SettingModel, second: SettingModel)
    ensures
        s.deposit(first).deposit(second) == s.deposit(second),
        s.deposit(first).deposit(second).desired_settings == Some(second),
{
}

} // verus!
