//! A requested change of settings and the frame that carries it to the
//! appliance.
//!
//! Temperatures are counted in half degrees Celsius, the step of the wire
//! format: the byte on the wire is the count plus 128.

use crate::codes::{FanSpeed, HeatPumpMode, VaneDirection, WideVaneDirection};
use crate::packet::{Frame, Packet, DEFAULT_H2, DEFAULT_H3, TYPE_SET};
use vstd::prelude::*;

verus! {

/// Length of the payload of a settings frame and of a status frame.
pub const PAYLOAD_SIZE: usize = 16;

/// First payload byte of a settings frame: an ordinary write.
pub const STANDARD_WRITE: u8 = 1;

/// Bit of the first mask byte that announces the power flag.
pub const MASK_POWER: u8 = 1;

/// Bit of the first mask byte that announces the mode.
pub const MASK_MODE: u8 = 2;

/// Bit of the first mask byte that announces the temperature.
pub const MASK_TEMPERATURE: u8 = 4;

/// Bit of the first mask byte that announces the fan speed.
pub const MASK_FAN: u8 = 8;

/// Bit of the first mask byte that announces the vane.
pub const MASK_VANE: u8 = 16;

/// Bit of the second mask byte that announces the wide vane.
pub const MASK_WIDEVANE: u8 = 1;

/// The byte that carries a temperature of `half_c` half degrees.
pub open spec fn spec_encode_temperature(half_c: i8) -> u8 {
    (half_c + 128) as u8
}

/// The byte that carries a temperature of `half_c` half degrees: the count
/// plus 128.
#[verifier::when_used_as_spec(spec_encode_temperature)]
pub fn encode_temperature(half_c: i8) -> (byte: u8)
    ensures
        byte == spec_encode_temperature(half_c),
        byte == half_c + 128,
{
    let shifted: i16 = half_c as i16 + 128;
    shifted as u8
}

/// A change of settings as a mathematical value: what a `HeatPumpSetting`
/// stands for.
pub ghost struct SettingModel {
    pub poweron: Option<bool>,
    pub mode: Option<HeatPumpMode>,
    pub desired_temperature_half_c: Option<i8>,
    pub fan_speed: Option<FanSpeed>,
    pub vane: Option<VaneDirection>,
    pub widevane: Option<WideVaneDirection>,
    pub controller_led_brightness: Option<u8>,
    pub controller_location: Option<Seq<char>>,
}

impl SettingModel {
    /// The change that changes nothing.
    pub open spec fn empty() -> SettingModel {
        SettingModel {
            poweron: None,
            mode: None,
            desired_temperature_half_c: None,
            fan_speed: None,
            vane: None,
            widevane: None,
            controller_led_brightness: None,
            controller_location: None,
        }
    }

    /// At least one field is meant for the appliance.
    pub open spec fn requires_packet(self) -> bool {
        self.poweron is Some || self.mode is Some || self.desired_temperature_half_c is Some
            || self.fan_speed is Some || self.vane is Some || self.widevane is Some
    }

    /// The change without the fields that are meant for the appliance.
    pub open spec fn without_appliance_fields(self) -> SettingModel {
        SettingModel {
            controller_led_brightness: self.controller_led_brightness,
            controller_location: self.controller_location,
            ..SettingModel::empty()
        }
    }

    /// The change without the fields that stay on the controller.
    pub open spec fn without_local_fields(self) -> SettingModel {
        SettingModel { controller_led_brightness: None, controller_location: None, ..self }
    }

    /// The first mask byte: one bit for each of power, mode, temperature, fan
    /// speed and vane that is present.
    pub open spec fn mask(self) -> u8 {
        ((if self.poweron is Some { MASK_POWER as int } else { 0 })
            + (if self.mode is Some { MASK_MODE as int } else { 0 })
            + (if self.desired_temperature_half_c is Some { MASK_TEMPERATURE as int } else { 0 })
            + (if self.fan_speed is Some { MASK_FAN as int } else { 0 })
            + (if self.vane is Some { MASK_VANE as int } else { 0 })) as u8
    }

    /// The second mask byte: one bit for the wide vane.
    pub open spec fn mask2(self) -> u8 {
        if self.widevane is Some {
            MASK_WIDEVANE
        } else {
            0
        }
    }

    /// The byte at place `i` of the payload. A field that is absent leaves its
    /// place at zero.
    pub open spec fn payload_byte(self, i: int) -> u8 {
        if i == 0 {
            STANDARD_WRITE
        } else if i == 1 {
            self.mask()
        } else if i == 2 {
            self.mask2()
        } else if i == 3 && self.poweron == Some(true) {
            1
        } else if i == 4 && self.mode is Some {
            self.mode->Some_0.spec_code()
        } else if i == 6 && self.fan_speed is Some {
            self.fan_speed->Some_0.spec_code()
        } else if i == 7 && self.vane is Some {
            self.vane->Some_0.spec_code()
        } else if i == 13 && self.widevane is Some {
            self.widevane->Some_0.spec_code()
        } else if i == 14 && self.desired_temperature_half_c is Some {
            spec_encode_temperature(self.desired_temperature_half_c->Some_0)
        } else {
            0
        }
    }

    /// The sixteen payload bytes of the frame that carries the change.
    pub open spec fn payload(self) -> Seq<u8> {
        Seq::new(PAYLOAD_SIZE as nat, |i: int| self.payload_byte(i))
    }

    /// The frame that carries the change, checksum set.
    pub open spec fn frame(self) -> Frame {
        Frame {
            packet_type: TYPE_SET,
            h2: DEFAULT_H2,
            h3: DEFAULT_H3,
            data: self.payload(),
            checksum: 0,
        }.sealed()
    }
}

/// A change of settings that a user asked for. A field that is `None` is left
/// as it is. The last two fields stay on the controller and never reach the
/// appliance.
#[derive(Clone, Debug, PartialEq, Eq)]
pub struct HeatPumpSetting {
    pub poweron: Option<bool>,
    pub mode: Option<HeatPumpMode>,
    pub desired_temperature_half_c: Option<i8>,
    pub fan_speed: Option<FanSpeed>,
    pub vane: Option<VaneDirection>,
    pub widevane: Option<WideVaneDirection>,
    pub controller_led_brightness: Option<u8>,
    pub controller_location: Option<String>,
}

impl View for HeatPumpSetting {
    type V = SettingModel;

    open spec fn view(&self) -> SettingModel {
        SettingModel {
            poweron: self.poweron,
            mode: self.mode,
            desired_temperature_half_c: self.desired_temperature_half_c,
            fan_speed: self.fan_speed,
            vane: self.vane,
            widevane: self.widevane,
            controller_led_brightness: self.controller_led_brightness,
            controller_location: match self.controller_location {
                Some(s) => Some(s@),
                None => None,
            },
        }
    }
}

impl HeatPumpSetting {
    /// The change that changes nothing.
    pub fn new() -> (setting: Self)
        ensures
            setting@ == SettingModel::empty(),
    {
        Self {
            poweron: None,
            mode: None,
            desired_temperature_half_c: None,
            fan_speed: None,
            vane: None,
            widevane: None,
            controller_led_brightness: None,
            controller_location: None,
        }
    }

    /// A copy that stands for the same change.
    pub fn duplicate(&self) -> (copy: Self)
        ensures
            copy@ == self@,
    {
        Self {
            poweron: self.poweron,
            mode: self.mode,
            desired_temperature_half_c: self.desired_temperature_half_c,
            fan_speed: self.fan_speed,
            vane: self.vane,
            widevane: self.widevane,
            controller_led_brightness: self.controller_led_brightness,
            controller_location: match &self.controller_location {
                Some(s) => Some(s.clone()),
                None => None,
            },
        }
    }

    /// Whether the change needs a frame sent to the appliance: true if and
    /// only if a field other than the two that stay on the controller is
    /// present.
    pub fn requires_packet(&self) -> (needed: bool)
        ensures
            needed == self@.requires_packet(),
    {
        self.poweron.is_some() || self.mode.is_some() || self.desired_temperature_half_c.is_some()
            || self.fan_speed.is_some() || self.vane.is_some() || self.widevane.is_some()
    }

    /// The sixteen payload bytes of the frame that carries the change.
    pub fn payload(&self) -> (data: Vec<u8>)
        ensures
            data@ == self@.payload(),
    {
        let power: u8 = match self.poweron {
            Some(true) => 1,
            _ => 0,
        };
        let mode: u8 = match self.mode {
            Some(mode) => mode.code(),
            None => 0,
        };
        let temperature: u8 = match self.desired_temperature_half_c {
            Some(half_c) => encode_temperature(half_c),
            None => 0,
        };
        let fan: u8 = match self.fan_speed {
            Some(speed) => speed.code(),
            None => 0,
        };
        let vane: u8 = match self.vane {
            Some(vane) => vane.code(),
            None => 0,
        };
        let widevane: u8 = match self.widevane {
            Some(widevane) => widevane.code(),
            None => 0,
        };
        let mask: u8 = (if self.poweron.is_some() { MASK_POWER } else { 0 })
            + (if self.mode.is_some() { MASK_MODE } else { 0 })
            + (if self.desired_temperature_half_c.is_some() { MASK_TEMPERATURE } else { 0 })
            + (if self.fan_speed.is_some() { MASK_FAN } else { 0 })
            + (if self.vane.is_some() { MASK_VANE } else { 0 });
        let mask2: u8 = if self.widevane.is_some() { MASK_WIDEVANE } else { 0 };
        let mut data: Vec<u8> = Vec::new();
        data.push(STANDARD_WRITE);
        data.push(mask);
        data.push(mask2);
        data.push(power);
        data.push(mode);
        data.push(0);
        data.push(fan);
        data.push(vane);
        data.push(0);
        data.push(0);
        data.push(0);
        data.push(0);
        data.push(0);
        data.push(widevane);
        data.push(temperature);
        data.push(0);
        assert(data@ =~= self@.payload());
        data
    }

    /// The frame that carries the change to the appliance, checksum set.
    pub fn to_packet(&self) -> (packet: Packet)
        ensures
            packet@ == self@.frame(),
            packet@.valid(),
    {
        let mut packet = Packet {
            packet_type: TYPE_SET,
            h2: DEFAULT_H2,
            h3: DEFAULT_H3,
            data: self.payload(),
            checksum: 0,
        };
        packet.set_checksum();
        packet
    }
}

} // verus!
