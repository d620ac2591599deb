//! The enumerated values of the protocol and their wire codes.
//!
//! Every value has a number, its discriminant. On the wire a value travels as
//! the low byte of that number. Reading a byte never fails: a byte that is the
//! code of no value reads as `Unknown`, whose own discriminant (999) is the code
//! of nothing on the wire.

use vstd::prelude::*;

verus! {

/// Discriminant of every `Unknown` value.
pub const UNKNOWN_REPR: usize = 999;

/// Low byte of `UNKNOWN_REPR`.
pub const UNKNOWN_CODE: u8 = 231;

/// Number of status categories that a full poll asks for.
pub const STATUS_CATEGORIES: usize = 6;

/// The categories of status that the appliance reports. The first payload
/// byte of a status frame holds the category's code.
#[derive(Clone, Copy, Debug, PartialEq, Eq, Structural)]
pub enum StatusPacketType {
    Settings,
    RoomTemperature,
    ErrorCodeMaybe,
    Timers,
    MiscInfo,
    StandbyMode,
}

impl StatusPacketType {
    /// The value's discriminant.
    pub open spec fn spec_repr(self) -> int {
        match self {
            StatusPacketType::Settings => 2,
            StatusPacketType::RoomTemperature => 3,
            StatusPacketType::ErrorCodeMaybe => 4,
            StatusPacketType::Timers => 5,
            StatusPacketType::MiscInfo => 6,
            StatusPacketType::StandbyMode => 9,
        }
    }

    /// The value with the discriminant `d`, if there is one.
    pub open spec fn spec_from_repr(d: int) -> Option<Self> {
        if d == 2 {
            Some(StatusPacketType::Settings)
        } else if d == 3 {
            Some(StatusPacketType::RoomTemperature)
        } else if d == 4 {
            Some(StatusPacketType::ErrorCodeMaybe)
        } else if d == 5 {
            Some(StatusPacketType::Timers)
        } else if d == 6 {
            Some(StatusPacketType::MiscInfo)
        } else if d == 9 {
            Some(StatusPacketType::StandbyMode)
        } else {
            None
        }
    }

    /// The byte that stands for the value on the wire: the low byte of its
    /// discriminant.
    pub open spec fn spec_code(self) -> u8 {
        (self.spec_repr() % 256) as u8
    }

    /// Finds the value with the given discriminant.
    pub fn from_repr(discriminant: usize) -> (r: Option<Self>)
        ensures
            r == Self::spec_from_repr(discriminant as int),
    {
        if discriminant == 2 {
            Some(StatusPacketType::Settings)
        } else if discriminant == 3 {
            Some(StatusPacketType::RoomTemperature)
        } else if discriminant == 4 {
            Some(StatusPacketType::ErrorCodeMaybe)
        } else if discriminant == 5 {
            Some(StatusPacketType::Timers)
        } else if discriminant == 6 {
            Some(StatusPacketType::MiscInfo)
        } else if discriminant == 9 {
            Some(StatusPacketType::StandbyMode)
        } else {
            None
        }
    }

    /// The byte that stands for the value on the wire.
    #[verifier::when_used_as_spec(spec_code)]
    pub fn code(self) -> (b: u8)
        ensures
            b == self.spec_code(),
    {
        match self {
            StatusPacketType::Settings => 2,
            StatusPacketType::RoomTemperature => 3,
            StatusPacketType::ErrorCodeMaybe => 4,
            StatusPacketType::Timers => 5,
            StatusPacketType::MiscInfo => 6,
            StatusPacketType::StandbyMode => 9,
        }
    }

    /// A value's code finds the value again.
    pub proof fn lemma_code_round_trip(self)
        ensures
            Self::spec_from_repr(self.spec_code() as int) == Some(self),
    {
    }

    /// The categories in the order in which a full poll asks for them.
    pub open spec fn spec_all() -> Seq<Self> {
        seq![
            StatusPacketType::Settings,
            StatusPacketType::RoomTemperature,
            StatusPacketType::ErrorCodeMaybe,
            StatusPacketType::Timers,
            StatusPacketType::MiscInfo,
            StatusPacketType::StandbyMode,
        ]
    }

    /// Every category, in polling order.
    pub fn all() -> (v: Vec<Self>)
        ensures
            v@ == Self::spec_all(),
            v@.len() == STATUS_CATEGORIES,
    {
        let mut v: Vec<Self> = Vec::new();
        v.push(StatusPacketType::Settings);
        v.push(StatusPacketType::RoomTemperature);
        v.push(StatusPacketType::ErrorCodeMaybe);
        v.push(StatusPacketType::Timers);
        v.push(StatusPacketType::MiscInfo);
        v.push(StatusPacketType::StandbyMode);
        assert(v@ =~= Self::spec_all());
        v
    }

}

/// Operating mode of the appliance.
#[derive(Clone, Copy, Debug, PartialEq, Eq, Structural)]
pub enum HeatPumpMode {
    Off,
    Heat,
    Dry,
    Cool,
    Fan,
    Auto,
    Unknown,
}

impl HeatPumpMode {
    /// The value's discriminant.
    pub open spec fn spec_repr(self) -> int {
        match self {
            HeatPumpMode::Off => 0,
            HeatPumpMode::Heat => 1,
            HeatPumpMode::Dry => 2,
            HeatPumpMode::Cool => 3,
            HeatPumpMode::Fan => 7,
            HeatPumpMode::Auto => 8,
            HeatPumpMode::Unknown => 999,
        }
    }

    /// The value with the discriminant `d`, if there is one.
    pub open spec fn spec_from_repr(d: int) -> Option<Self> {
        if d == 0 {
            Some(HeatPumpMode::Off)
        } else if d == 1 {
            Some(HeatPumpMode::Heat)
        } else if d == 2 {
            Some(HeatPumpMode::Dry)
        } else if d == 3 {
            Some(HeatPumpMode::Cool)
        } else if d == 7 {
            Some(HeatPumpMode::Fan)
        } else if d == 8 {
            Some(HeatPumpMode::Auto)
        } else if d == 999 {
            Some(HeatPumpMode::Unknown)
        } else {
            None
        }
    }

    /// The byte that stands for the value on the wire: the low byte of its
    /// discriminant.
    pub open spec fn spec_code(self) -> u8 {
        (self.spec_repr() % 256) as u8
    }

    /// The value that the byte `b` stands for; `Unknown` where it is the code
    /// of none.
    pub open spec fn spec_from_byte(b: u8) -> Self {
        match Self::spec_from_repr(b as int) {
            Some(v) => v,
            None => HeatPumpMode::Unknown,
        }
    }

    /// Finds the value with the given discriminant.
    pub fn from_repr(discriminant: usize) -> (r: Option<Self>)
        ensures
            r == Self::spec_from_repr(discriminant as int),
    {
        if discriminant == 0 {
            Some(HeatPumpMode::Off)
        } else if discriminant == 1 {
            Some(HeatPumpMode::Heat)
        } else if discriminant == 2 {
            Some(HeatPumpMode::Dry)
        } else if discriminant == 3 {
            Some(HeatPumpMode::Cool)
        } else if discriminant == 7 {
            Some(HeatPumpMode::Fan)
        } else if discriminant == 8 {
            Some(HeatPumpMode::Auto)
        } else if discriminant == UNKNOWN_REPR {
            Some(HeatPumpMode::Unknown)
        } else {
            None
        }
    }

    /// The byte that stands for the value on the wire.
    #[verifier::when_used_as_spec(spec_code)]
    pub fn code(self) -> (b: u8)
        ensures
            b == self.spec_code(),
    {
        match self {
            HeatPumpMode::Off => 0,
            HeatPumpMode::Heat => 1,
            HeatPumpMode::Dry => 2,
            HeatPumpMode::Cool => 3,
            HeatPumpMode::Fan => 7,
            HeatPumpMode::Auto => 8,
            HeatPumpMode::Unknown => UNKNOWN_CODE,
        }
    }

    /// Reads a byte off the wire. Never fails: a byte that is the code of no
    /// value reads as `Unknown`.
    #[verifier::when_used_as_spec(spec_from_byte)]
    pub fn from_byte(b: u8) -> (r: Self)
        ensures
            r == Self::spec_from_byte(b),
    {
        match Self::from_repr(b as usize) {
            Some(v) => v,
            None => HeatPumpMode::Unknown,
        }
    }

    /// Writing a value and reading the byte back gives the value again, and
    /// its discriminant finds it.
    pub proof fn lemma_code_round_trip(self)
        ensures
            Self::spec_from_byte(self.spec_code()) == self,
            Self::spec_from_repr(self.spec_repr()) == Some(self),
    {
    }

    /// A byte that is the code of a known value is written back unchanged.
    pub proof fn lemma_byte_round_trip(b: u8)
        requires
            Self::spec_from_byte(b) != HeatPumpMode::Unknown,
        ensures
            Self::spec_from_byte(b).spec_code() == b,
    {
    }

}

/// Fan speed of the appliance.
#[derive(Clone, Copy, Debug, PartialEq, Eq, Structural)]
pub enum FanSpeed {
    Auto,
    Quiet,
    Low,
    Med,
    High,
    VeryHigh,
    Unknown,
}

impl FanSpeed {
    /// The value's discriminant.
    pub open spec fn spec_repr(self) -> int {
        match self {
            FanSpeed::Auto => 0,
            FanSpeed::Quiet => 1,
            FanSpeed::Low => 2,
            FanSpeed::Med => 3,
            FanSpeed::High => 5,
            FanSpeed::VeryHigh => 6,
            FanSpeed::Unknown => 999,
        }
    }

    /// The value with the discriminant `d`, if there is one.
    pub open spec fn spec_from_repr(d: int) -> Option<Self> {
        if d == 0 {
            Some(FanSpeed::Auto)
        } else if d == 1 {
            Some(FanSpeed::Quiet)
        } else if d == 2 {
            Some(FanSpeed::Low)
        } else if d == 3 {
            Some(FanSpeed::Med)
        } else if d == 5 {
            Some(FanSpeed::High)
        } else if d == 6 {
            Some(FanSpeed::VeryHigh)
        } else if d == 999 {
            Some(FanSpeed::Unknown)
        } else {
            None
        }
    }

    /// The byte that stands for the value on the wire: the low byte of its
    /// discriminant.
    pub open spec fn spec_code(self) -> u8 {
        (self.spec_repr() % 256) as u8
    }

    /// The value that the byte `b` stands for; `Unknown` where it is the code
    /// of none.
    pub open spec fn spec_from_byte(b: u8) -> Self {
        match Self::spec_from_repr(b as int) {
            Some(v) => v,
            None => FanSpeed::Unknown,
        }
    }

    /// Finds the value with the given discriminant.
    pub fn from_repr(discriminant: usize) -> (r: Option<Self>)
        ensures
            r == Self::spec_from_repr(discriminant as int),
    {
        if discriminant == 0 {
            Some(FanSpeed::Auto)
        } else if discriminant == 1 {
            Some(FanSpeed::Quiet)
        } else if discriminant == 2 {
            Some(FanSpeed::Low)
        } else if discriminant == 3 {
            Some(FanSpeed::Med)
        } else if discriminant == 5 {
            Some(FanSpeed::High)
        } else if discriminant == 6 {
            Some(FanSpeed::VeryHigh)
        } else if discriminant == UNKNOWN_REPR {
            Some(FanSpeed::Unknown)
        } else {
            None
        }
    }

    /// The byte that stands for the value on the wire.
    #[verifier::when_used_as_spec(spec_code)]
    pub fn code(self) -> (b: u8)
        ensures
            b == self.spec_code(),
    {
        match self {
            FanSpeed::Auto => 0,
            FanSpeed::Quiet => 1,
            FanSpeed::Low => 2,
            FanSpeed::Med => 3,
            FanSpeed::High => 5,
            FanSpeed::VeryHigh => 6,
            FanSpeed::Unknown => UNKNOWN_CODE,
        }
    }

    /// Reads a byte off the wire. Never fails: a byte that is the code of no
    /// value reads as `Unknown`.
    #[verifier::when_used_as_spec(spec_from_byte)]
    pub fn from_byte(b: u8) -> (r: Self)
        ensures
            r == Self::spec_from_byte(b),
    {
        match Self::from_repr(b as usize) {
            Some(v) => v,
            None => FanSpeed::Unknown,
        }
    }

    /// Writing a value and reading the byte back gives the value again, and
    /// its discriminant finds it.
    pub proof fn lemma_code_round_trip(self)
        ensures
            Self::spec_from_byte(self.spec_code()) == self,
            Self::spec_from_repr(self.spec_repr()) == Some(self),
    {
    }

    /// A byte that is the code of a known value is written back unchanged.
    pub proof fn lemma_byte_round_trip(b: u8)
        requires
            Self::spec_from_byte(b) != FanSpeed::Unknown,
        ensures
            Self::spec_from_byte(b).spec_code() == b,
    {
    }

}

/// Position of the vertical vane.
#[derive(Clone, Copy, Debug, PartialEq, Eq, Structural)]
pub enum VaneDirection {
    Auto,
    Horizontal,
    MidHorizontal,
    Midpoint,
    MidVertical,
    Vertical,
    Swing,
    Unknown,
}

impl VaneDirection {
    /// The value's discriminant.
    pub open spec fn spec_repr(self) -> int {
        match self {
            VaneDirection::Auto => 0,
            VaneDirection::Horizontal => 1,
            VaneDirection::MidHorizontal => 2,
            VaneDirection::Midpoint => 3,
            VaneDirection::MidVertical => 4,
            VaneDirection::Vertical => 5,
            VaneDirection::Swing => 7,
            VaneDirection::Unknown => 999,
        }
    }

    /// The value with the discriminant `d`, if there is one.
    pub open spec fn spec_from_repr(d: int) -> Option<Self> {
        if d == 0 {
            Some(VaneDirection::Auto)
        } else if d == 1 {
            Some(VaneDirection::Horizontal)
        } else if d == 2 {
            Some(VaneDirection::MidHorizontal)
        } else if d == 3 {
            Some(VaneDirection::Midpoint)
        } else if d == 4 {
            Some(VaneDirection::MidVertical)
        } else if d == 5 {
            Some(VaneDirection::Vertical)
        } else if d == 7 {
            Some(VaneDirection::Swing)
        } else if d == 999 {
            Some(VaneDirection::Unknown)
        } else {
            None
        }
    }

    /// The byte that stands for the value on the wire: the low byte of its
    /// discriminant.
    pub open spec fn spec_code(self) -> u8 {
        (self.spec_repr() % 256) as u8
    }

    /// The value that the byte `b` stands for; `Unknown` where it is the code
    /// of none.
    pub open spec fn spec_from_byte(b: u8) -> Self {
        match Self::spec_from_repr(b as int) {
            Some(v) => v,
            None => VaneDirection::Unknown,
        }
    }

    /// Finds the value with the given discriminant.
    pub fn from_repr(discriminant: usize) -> (r: Option<Self>)
        ensures
            r == Self::spec_from_repr(discriminant as int),
    {
        if discriminant == 0 {
            Some(VaneDirection::Auto)
        } else if discriminant == 1 {
            Some(VaneDirection::Horizontal)
        } else if discriminant == 2 {
            Some(VaneDirection::MidHorizontal)
        } else if discriminant == 3 {
            Some(VaneDirection::Midpoint)
        } else if discriminant == 4 {
            Some(VaneDirection::MidVertical)
        } else if discriminant == 5 {
            Some(VaneDirection::Vertical)
        } else if discriminant == 7 {
            Some(VaneDirection::Swing)
        } else if discriminant == UNKNOWN_REPR {
            Some(VaneDirection::Unknown)
        } else {
            None
        }
    }

    /// The byte that stands for the value on the wire.
    #[verifier::when_used_as_spec(spec_code)]
    pub fn code(self) -> (b: u8)
        ensures
            b == self.spec_code(),
    {
        match self {
            VaneDirection::Auto => 0,
            VaneDirection::Horizontal => 1,
            VaneDirection::MidHorizontal => 2,
            VaneDirection::Midpoint => 3,
            VaneDirection::MidVertical => 4,
            VaneDirection::Vertical => 5,
            VaneDirection::Swing => 7,
            VaneDirection::Unknown => UNKNOWN_CODE,
        }
    }

    /// Reads a byte off the wire. Never fails: a byte that is the code of no
    /// value reads as `Unknown`.
    #[verifier::when_used_as_spec(spec_from_byte)]
    pub fn from_byte(b: u8) -> (r: Self)
        ensures
            r == Self::spec_from_byte(b),
    {
        match Self::from_repr(b as usize) {
            Some(v) => v,
            None => VaneDirection::Unknown,
        }
    }

    /// Writing a value and reading the byte back gives the value again, and
    /// its discriminant finds it.
    pub proof fn lemma_code_round_trip(self)
        ensures
            Self::spec_from_byte(self.spec_code()) == self,
            Self::spec_from_repr(self.spec_repr()) == Some(self),
    {
    }

    /// A byte that is the code of a known value is written back unchanged.
    pub proof fn lemma_byte_round_trip(b: u8)
        requires
            Self::spec_from_byte(b) != VaneDirection::Unknown,
        ensures
            Self::spec_from_byte(b).spec_code() == b,
    {
    }

}

/// Position of the horizontal (wide) vane.
#[derive(Clone, Copy, Debug, PartialEq, Eq, Structural)]
pub enum WideVaneDirection {
    FarLeft,
    Left,
    Mid,
    Right,
    FarRight,
    Split,
    Swing,
    Unknown,
}

impl WideVaneDirection {
    /// The value's discriminant.
    pub open spec fn spec_repr(self) -> int {
        match self {
            WideVaneDirection::FarLeft => 1,
            WideVaneDirection::Left => 2,
            WideVaneDirection::Mid => 3,
            WideVaneDirection::Right => 4,
            WideVaneDirection::FarRight => 5,
            WideVaneDirection::Split => 8,
            WideVaneDirection::Swing => 12,
            WideVaneDirection::Unknown => 999,
        }
    }

    /// The value with the discriminant `d`, if there is one.
    pub open spec fn spec_from_repr(d: int) -> Option<Self> {
        if d == 1 {
            Some(WideVaneDirection::FarLeft)
        } else if d == 2 {
            Some(WideVaneDirection::Left)
        } else if d == 3 {
            Some(WideVaneDirection::Mid)
        } else if d == 4 {
            Some(WideVaneDirection::Right)
        } else if d == 5 {
            Some(WideVaneDirection::FarRight)
        } else if d == 8 {
            Some(WideVaneDirection::Split)
        } else if d == 12 {
            Some(WideVaneDirection::Swing)
        } else if d == 999 {
            Some(WideVaneDirection::Unknown)
        } else {
            None
        }
    }

    /// The byte that stands for the value on the wire: the low byte of its
    /// discriminant.
    pub open spec fn spec_code(self) -> u8 {
        (self.spec_repr() % 256) as u8
    }

    /// The value that the byte `b` stands for; `Unknown` where it is the code
    /// of none.
    pub open spec fn spec_from_byte(b: u8) -> Self {
        match Self::spec_from_repr(b as int) {
            Some(v) => v,
            None => WideVaneDirection::Unknown,
        }
    }

    /// Finds the value with the given discriminant.
    pub fn from_repr(discriminant: usize) -> (r: Option<Self>)
        ensures
            r == Self::spec_from_repr(discriminant as int),
    {
        if discriminant == 1 {
            Some(WideVaneDirection::FarLeft)
        } else if discriminant == 2 {
            Some(WideVaneDirection::Left)
        } else if discriminant == 3 {
            Some(WideVaneDirection::Mid)
        } else if discriminant == 4 {
            Some(WideVaneDirection::Right)
        } else if discriminant == 5 {
            Some(WideVaneDirection::FarRight)
        } else if discriminant == 8 {
            Some(WideVaneDirection::Split)
        } else if discriminant == 12 {
            Some(WideVaneDirection::Swing)
        } else if discriminant == UNKNOWN_REPR {
            Some(WideVaneDirection::Unknown)
        } else {
            None
        }
    }

    /// The byte that stands for the value on the wire.
    #[verifier::when_used_as_spec(spec_code)]
    pub fn code(self) -> (b: u8)
        ensures
            b == self.spec_code(),
    {
        match self {
            WideVaneDirection::FarLeft => 1,
            WideVaneDirection::Left => 2,
            WideVaneDirection::Mid => 3,
            WideVaneDirection::Right => 4,
            WideVaneDirection::FarRight => 5,
            WideVaneDirection::Split => 8,
            WideVaneDirection::Swing => 12,
            WideVaneDirection::Unknown => UNKNOWN_CODE,
        }
    }

    /// Reads a byte off the wire. Never fails: a byte that is the code of no
    /// value reads as `Unknown`.
    #[verifier::when_used_as_spec(spec_from_byte)]
    pub fn from_byte(b: u8) -> (r: Self)
        ensures
            r == Self::spec_from_byte(b),
    {
        match Self::from_repr(b as usize) {
            Some(v) => v,
            None => WideVaneDirection::Unknown,
        }
    }

    /// Writing a value and reading the byte back gives the value again, and
    /// its discriminant finds it.
    pub proof fn lemma_code_round_trip(self)
        ensures
            Self::spec_from_byte(self.spec_code()) == self,
            Self::spec_from_repr(self.spec_repr()) == Some(self),
    {
    }

    /// A byte that is the code of a known value is written back unchanged.
    pub proof fn lemma_byte_round_trip(b: u8)
        requires
            Self::spec_from_byte(b) != WideVaneDirection::Unknown,
        ensures
            Self::spec_from_byte(b).spec_code() == b,
    {
    }

}

/// Submode of the presence sensor.
#[derive(Clone, Copy, Debug, PartialEq, Eq, Structural)]
pub enum ISeeMode {
    Indirect,
    Direct,
    Unknown,
}

impl ISeeMode {
    /// The value's discriminant.
    pub open spec fn spec_repr(self) -> int {
        match self {
            ISeeMode::Indirect => 1,
            ISeeMode::Direct => 2,
            ISeeMode::Unknown => 999,
        }
    }

    /// The value with the discriminant `d`, if there is one.
    pub open spec fn spec_from_repr(d: int) -> Option<Self> {
        if d == 1 {
            Some(ISeeMode::Indirect)
        } else if d == 2 {
            Some(ISeeMode::Direct)
        } else if d == 999 {
            Some(ISeeMode::Unknown)
        } else {
            None
        }
    }

    /// The byte that stands for the value on the wire: the low byte of its
    /// discriminant.
    pub open spec fn spec_code(self) -> u8 {
        (self.spec_repr() % 256) as u8
    }

    /// The value that the byte `b` stands for; `Unknown` where it is the code
    /// of none.
    pub open spec fn spec_from_byte(b: u8) -> Self {
        match Self::spec_from_repr(b as int) {
            Some(v) => v,
            None => ISeeMode::Unknown,
        }
    }

    /// Finds the value with the given discriminant.
    pub fn from_repr(discriminant: usize) -> (r: Option<Self>)
        ensures
            r == Self::spec_from_repr(discriminant as int),
    {
        if discriminant == 1 {
            Some(ISeeMode::Indirect)
        } else if discriminant == 2 {
            Some(ISeeMode::Direct)
        } else if discriminant == UNKNOWN_REPR {
            Some(ISeeMode::Unknown)
        } else {
            None
        }
    }

    /// The byte that stands for the value on the wire.
    #[verifier::when_used_as_spec(spec_code)]
    pub fn code(self) -> (b: u8)
        ensures
            b == self.spec_code(),
    {
        match self {
            ISeeMode::Indirect => 1,
            ISeeMode::Direct => 2,
            ISeeMode::Unknown => UNKNOWN_CODE,
        }
    }

    /// Reads a byte off the wire. Never fails: a byte that is the code of no
    /// value reads as `Unknown`.
    #[verifier::when_used_as_spec(spec_from_byte)]
    pub fn from_byte(b: u8) -> (r: Self)
        ensures
            r == Self::spec_from_byte(b),
    {
        match Self::from_repr(b as usize) {
            Some(v) => v,
            None => ISeeMode::Unknown,
        }
    }

    /// Writing a value and reading the byte back gives the value again, and
    /// its discriminant finds it.
    pub proof fn lemma_code_round_trip(self)
        ensures
            Self::spec_from_byte(self.spec_code()) == self,
            Self::spec_from_repr(self.spec_repr()) == Some(self),
    {
    }

    /// A byte that is the code of a known value is written back unchanged.
    pub proof fn lemma_byte_round_trip(b: u8)
        requires
            Self::spec_from_byte(b) != ISeeMode::Unknown,
        ensures
            Self::spec_from_byte(b).spec_code() == b,
    {
    }

}

} // verus!
