//! The closed enumerations of the protocol: product identifiers, states
//! of operation and error codes, each with the number that stands for it
//! on the wire.

use vstd::prelude::*;

verus! {

/// An enumeration whose members are numbers on the wire.
pub trait WireEnum: Sized {
    /// The number that stands for this member on the wire.
    spec fn wire_code(self) -> int;

    /// No two members share a number.
    proof fn lemma_codes_differ(a: Self, b: Self)
        ensures
            a.wire_code() == b.wire_code() ==> a == b,
    ;

    /// The member that `code` stands for, if it stands for one.
    fn from_code(code: i64) -> (member: Option<Self>)
        ensures
            member matches Some(m) ==> m.wire_code() == code,
            member is None ==> forall|m: Self| m.wire_code() != code,
    ;
}

/// The member of an enumeration that `code` stands for. A number that
/// stands for no member is not turned into one.
pub open spec fn decode<E: WireEnum>(code: int) -> Option<E> {
    if exists|member: E| member.wire_code() == code {
        Some(choose|member: E| member.wire_code() == code)
    } else {
        None
    }
}

/// Every member is found again from its number, and a number stands for
/// one member at most: the one with that number.
pub proof fn lemma_decode_member<E: WireEnum>(member: E, code: int)
    ensures
        decode::<E>(member.wire_code()) == Some(member),
        decode::<E>(code) == Some(member) <==> code == member.wire_code(),
{
    let own = member.wire_code();
    assert(exists|m: E| m.wire_code() == own);
    E::lemma_codes_differ(member, decode::<E>(own).unwrap());
    if decode::<E>(code) == Some(member) {
        assert(exists|m: E| m.wire_code() == code);
    }
}

/// A number that no member has is decoded to none.
pub proof fn lemma_decode_none<E: WireEnum>(code: int)
    requires
        forall|m: E| m.wire_code() != code,
    ensures
        decode::<E>(code) is None,
{
}

/// The product that a device reports in its field `PID`.
#[allow(non_camel_case_types)]
#[derive(Debug, Clone, Copy, PartialEq, Eq, Structural)]
pub enum VictronProductId {
    /// BMV-700
    BMV700,
    /// BMV-702
    BMV702,
    /// BMV-700H
    BMV700H,
    /// BlueSolar MPPT 70/15
    BlueSolar_MPPT_70_15,
    /// BlueSolar MPPT 75/50
    BlueSolar_MPPT_75_50,
    /// BlueSolar MPPT 150/35 rev1
    BlueSolar_MPPT_150_35_rev1,
    /// BlueSolar MPPT 75/15
    BlueSolar_MPPT_75_15,
    /// BlueSolar MPPT 100/15
    BlueSolar_MPPT_100_15,
    /// BlueSolar MPPT 100/30 rev1
    BlueSolar_MPPT_100_30_rev1,
    /// BlueSolar MPPT 100/50 rev1
    BlueSolar_MPPT_100_50_rev1,
    /// BlueSolar MPPT 150/70
    BlueSolar_MPPT_150_70,
    /// BlueSolar MPPT 150/100
    BlueSolar_MPPT_150_100,
    /// BlueSolar MPPT 100/50 rev2
    BlueSolar_MPPT_100_50_rev2,
    /// BlueSolar MPPT 100/30 rev2
    BlueSolar_MPPT_100_30_rev2,
    /// BlueSolar MPPT 150/35 rev2
    BlueSolar_MPPT_150_35_rev2,
    /// BlueSolar MPPT 75/10
    BlueSolar_MPPT_75_10,
    /// BlueSolar MPPT 150/45
    BlueSolar_MPPT_150_45,
    /// BlueSolar MPPT 150/60
    BlueSolar_MPPT_150_60,
    /// BlueSolar MPPT 150/85
    BlueSolar_MPPT_150_85,
    /// SmartSolar MPPT 250/100
    SmartSolar_MPPT_250_100,
    /// SmartSolar MPPT 150/100
    SmartSolar_MPPT_150_100,
    /// Phoenix Inverter 12V 250VA 230V
    Phoenix_Inverter_12V_250VA_230V,
    /// Phoenix Inverter 24V 250VA 230V
    Phoenix_Inverter_24V_250VA_230V,
    /// Phoenix Inverter 48V 250VA 230V
    Phoenix_Inverter_48V_250VA_230V,
    /// Phoenix Inverter 12V 375VA 230V
    Phoenix_Inverter_12V_375VA_230V,
    /// Phoenix Inverter 24V 375VA 230V
    Phoenix_Inverter_24V_375VA_230V,
    /// Phoenix Inverter 48V 375VA 230V
    Phoenix_Inverter_48V_375VA_230V,
    /// Phoenix Inverter 12V 500VA 230V
    Phoenix_Inverter_12V_500VA_230V,
    /// Phoenix Inverter 24V 500VA 230V
    Phoenix_Inverter_24V_500VA_230V,
    /// Phoenix Inverter 48V 500VA 230V
    Phoenix_Inverter_48V_500VA_230V,
}

impl VictronProductId {
    /// The number that stands for this member on the wire.
    pub open spec fn code_of(self) -> u32 {
        match self {
            VictronProductId::BMV700 => 0x203,
            VictronProductId::BMV702 => 0x204,
            VictronProductId::BMV700H => 0x205,
            VictronProductId::BlueSolar_MPPT_70_15 => 0x300,
            VictronProductId::BlueSolar_MPPT_75_50 => 0xA040,
            VictronProductId::BlueSolar_MPPT_150_35_rev1 => 0xA041,
            VictronProductId::BlueSolar_MPPT_75_15 => 0xA042,
            VictronProductId::BlueSolar_MPPT_100_15 => 0xA043,
            VictronProductId::BlueSolar_MPPT_100_30_rev1 => 0xA044,
            VictronProductId::BlueSolar_MPPT_100_50_rev1 => 0xA045,
            VictronProductId::BlueSolar_MPPT_150_70 => 0xA046,
            VictronProductId::BlueSolar_MPPT_150_100 => 0xA047,
            VictronProductId::BlueSolar_MPPT_100_50_rev2 => 0xA049,
            VictronProductId::BlueSolar_MPPT_100_30_rev2 => 0xA04A,
            VictronProductId::BlueSolar_MPPT_150_35_rev2 => 0xA04B,
            VictronProductId::BlueSolar_MPPT_75_10 => 0xA04C,
            VictronProductId::BlueSolar_MPPT_150_45 => 0xA04D,
            VictronProductId::BlueSolar_MPPT_150_60 => 0xA04E,
            VictronProductId::BlueSolar_MPPT_150_85 => 0xA04F,
            VictronProductId::SmartSolar_MPPT_250_100 => 0xA050,
            VictronProductId::SmartSolar_MPPT_150_100 => 0xA051,
            VictronProductId::Phoenix_Inverter_12V_250VA_230V => 0xA201,
            VictronProductId::Phoenix_Inverter_24V_250VA_230V => 0xA202,
            VictronProductId::Phoenix_Inverter_48V_250VA_230V => 0xA204,
            VictronProductId::Phoenix_Inverter_12V_375VA_230V => 0xA211,
            VictronProductId::Phoenix_Inverter_24V_375VA_230V => 0xA212,
            VictronProductId::Phoenix_Inverter_48V_375VA_230V => 0xA214,
            VictronProductId::Phoenix_Inverter_12V_500VA_230V => 0xA221,
            VictronProductId::Phoenix_Inverter_24V_500VA_230V => 0xA222,
            VictronProductId::Phoenix_Inverter_48V_500VA_230V => 0xA224,
        }
    }

    /// The name under which the product is sold.
    pub open spec fn name_of(self) -> Seq<char> {
        match self {
            VictronProductId::BMV700 => "BMV-700"@,
            VictronProductId::BMV702 => "BMV-702"@,
            VictronProductId::BMV700H => "BMV-700H"@,
            VictronProductId::BlueSolar_MPPT_70_15 => "BlueSolar MPPT 70/15"@,
            VictronProductId::BlueSolar_MPPT_75_50 => "BlueSolar MPPT 75/50"@,
            VictronProductId::BlueSolar_MPPT_150_35_rev1 => "BlueSolar MPPT 150/35 rev1"@,
            VictronProductId::BlueSolar_MPPT_75_15 => "BlueSolar MPPT 75/15"@,
            VictronProductId::BlueSolar_MPPT_100_15 => "BlueSolar MPPT 100/15"@,
            VictronProductId::BlueSolar_MPPT_100_30_rev1 => "BlueSolar MPPT 100/30 rev1"@,
            VictronProductId::BlueSolar_MPPT_100_50_rev1 => "BlueSolar MPPT 100/50 rev1"@,
            VictronProductId::BlueSolar_MPPT_150_70 => "BlueSolar MPPT 150/70"@,
            VictronProductId::BlueSolar_MPPT_150_100 => "BlueSolar MPPT 150/100"@,
            VictronProductId::BlueSolar_MPPT_100_50_rev2 => "BlueSolar MPPT 100/50 rev2"@,
            VictronProductId::BlueSolar_MPPT_100_30_rev2 => "BlueSolar MPPT 100/30 rev2"@,
            VictronProductId::BlueSolar_MPPT_150_35_rev2 => "BlueSolar MPPT 150/35 rev2"@,
            VictronProductId::BlueSolar_MPPT_75_10 => "BlueSolar MPPT 75/10"@,
            VictronProductId::BlueSolar_MPPT_150_45 => "BlueSolar MPPT 150/45"@,
            VictronProductId::BlueSolar_MPPT_150_60 => "BlueSolar MPPT 150/60"@,
            VictronProductId::BlueSolar_MPPT_150_85 => "BlueSolar MPPT 150/85"@,
            VictronProductId::SmartSolar_MPPT_250_100 => "SmartSolar MPPT 250/100"@,
            VictronProductId::SmartSolar_MPPT_150_100 => "SmartSolar MPPT 150/100"@,
            VictronProductId::Phoenix_Inverter_12V_250VA_230V => "Phoenix Inverter 12V 250VA 230V"@,
            VictronProductId::Phoenix_Inverter_24V_250VA_230V => "Phoenix Inverter 24V 250VA 230V"@,
            VictronProductId::Phoenix_Inverter_48V_250VA_230V => "Phoenix Inverter 48V 250VA 230V"@,
            VictronProductId::Phoenix_Inverter_12V_375VA_230V => "Phoenix Inverter 12V 375VA 230V"@,
            VictronProductId::Phoenix_Inverter_24V_375VA_230V => "Phoenix Inverter 24V 375VA 230V"@,
            VictronProductId::Phoenix_Inverter_48V_375VA_230V => "Phoenix Inverter 48V 375VA 230V"@,
            VictronProductId::Phoenix_Inverter_12V_500VA_230V => "Phoenix Inverter 12V 500VA 230V"@,
            VictronProductId::Phoenix_Inverter_24V_500VA_230V => "Phoenix Inverter 24V 500VA 230V"@,
            VictronProductId::Phoenix_Inverter_48V_500VA_230V => "Phoenix Inverter 48V 500VA 230V"@,
        }
    }

    /// The number that stands for this member on the wire.
    pub fn code(&self) -> (code: u32)
        ensures
            code == self.code_of(),
    {
        match self {
            VictronProductId::BMV700 => 0x203,
            VictronProductId::BMV702 => 0x204,
            VictronProductId::BMV700H => 0x205,
            VictronProductId::BlueSolar_MPPT_70_15 => 0x300,
            VictronProductId::BlueSolar_MPPT_75_50 => 0xA040,
            VictronProductId::BlueSolar_MPPT_150_35_rev1 => 0xA041,
            VictronProductId::BlueSolar_MPPT_75_15 => 0xA042,
            VictronProductId::BlueSolar_MPPT_100_15 => 0xA043,
            VictronProductId::BlueSolar_MPPT_100_30_rev1 => 0xA044,
            VictronProductId::BlueSolar_MPPT_100_50_rev1 => 0xA045,
            VictronProductId::BlueSolar_MPPT_150_70 => 0xA046,
            VictronProductId::BlueSolar_MPPT_150_100 => 0xA047,
            VictronProductId::BlueSolar_MPPT_100_50_rev2 => 0xA049,
            VictronProductId::BlueSolar_MPPT_100_30_rev2 => 0xA04A,
            VictronProductId::BlueSolar_MPPT_150_35_rev2 => 0xA04B,
            VictronProductId::BlueSolar_MPPT_75_10 => 0xA04C,
            VictronProductId::BlueSolar_MPPT_150_45 => 0xA04D,
            VictronProductId::BlueSolar_MPPT_150_60 => 0xA04E,
            VictronProductId::BlueSolar_MPPT_150_85 => 0xA04F,
            VictronProductId::SmartSolar_MPPT_250_100 => 0xA050,
            VictronProductId::SmartSolar_MPPT_150_100 => 0xA051,
            VictronProductId::Phoenix_Inverter_12V_250VA_230V => 0xA201,
            VictronProductId::Phoenix_Inverter_24V_250VA_230V => 0xA202,
            VictronProductId::Phoenix_Inverter_48V_250VA_230V => 0xA204,
            VictronProductId::Phoenix_Inverter_12V_375VA_230V => 0xA211,
            VictronProductId::Phoenix_Inverter_24V_375VA_230V => 0xA212,
            VictronProductId::Phoenix_Inverter_48V_375VA_230V => 0xA214,
            VictronProductId::Phoenix_Inverter_12V_500VA_230V => 0xA221,
            VictronProductId::Phoenix_Inverter_24V_500VA_230V => 0xA222,
            VictronProductId::Phoenix_Inverter_48V_500VA_230V => 0xA224,
        }
    }

    /// The name under which the product is sold.
    pub fn name(&self) -> (text: &'static str)
        ensures
            text@ == self.name_of(),
    {
        match self {
            VictronProductId::BMV700 => "BMV-700",
            VictronProductId::BMV702 => "BMV-702",
            VictronProductId::BMV700H => "BMV-700H",
            VictronProductId::BlueSolar_MPPT_70_15 => "BlueSolar MPPT 70/15",
            VictronProductId::BlueSolar_MPPT_75_50 => "BlueSolar MPPT 75/50",
            VictronProductId::BlueSolar_MPPT_150_35_rev1 => "BlueSolar MPPT 150/35 rev1",
            VictronProductId::BlueSolar_MPPT_75_15 => "BlueSolar MPPT 75/15",
            VictronProductId::BlueSolar_MPPT_100_15 => "BlueSolar MPPT 100/15",
            VictronProductId::BlueSolar_MPPT_100_30_rev1 => "BlueSolar MPPT 100/30 rev1",
            VictronProductId::BlueSolar_MPPT_100_50_rev1 => "BlueSolar MPPT 100/50 rev1",
            VictronProductId::BlueSolar_MPPT_150_70 => "BlueSolar MPPT 150/70",
            VictronProductId::BlueSolar_MPPT_150_100 => "BlueSolar MPPT 150/100",
            VictronProductId::BlueSolar_MPPT_100_50_rev2 => "BlueSolar MPPT 100/50 rev2",
            VictronProductId::BlueSolar_MPPT_100_30_rev2 => "BlueSolar MPPT 100/30 rev2",
            VictronProductId::BlueSolar_MPPT_150_35_rev2 => "BlueSolar MPPT 150/35 rev2",
            VictronProductId::BlueSolar_MPPT_75_10 => "BlueSolar MPPT 75/10",
            VictronProductId::BlueSolar_MPPT_150_45 => "BlueSolar MPPT 150/45",
            VictronProductId::BlueSolar_MPPT_150_60 => "BlueSolar MPPT 150/60",
            VictronProductId::BlueSolar_MPPT_150_85 => "BlueSolar MPPT 150/85",
            VictronProductId::SmartSolar_MPPT_250_100 => "SmartSolar MPPT 250/100",
            VictronProductId::SmartSolar_MPPT_150_100 => "SmartSolar MPPT 150/100",
            VictronProductId::Phoenix_Inverter_12V_250VA_230V => "Phoenix Inverter 12V 250VA 230V",
            VictronProductId::Phoenix_Inverter_24V_250VA_230V => "Phoenix Inverter 24V 250VA 230V",
            VictronProductId::Phoenix_Inverter_48V_250VA_230V => "Phoenix Inverter 48V 250VA 230V",
            VictronProductId::Phoenix_Inverter_12V_375VA_230V => "Phoenix Inverter 12V 375VA 230V",
            VictronProductId::Phoenix_Inverter_24V_375VA_230V => "Phoenix Inverter 24V 375VA 230V",
            VictronProductId::Phoenix_Inverter_48V_375VA_230V => "Phoenix Inverter 48V 375VA 230V",
            VictronProductId::Phoenix_Inverter_12V_500VA_230V => "Phoenix Inverter 12V 500VA 230V",
            VictronProductId::Phoenix_Inverter_24V_500VA_230V => "Phoenix Inverter 24V 500VA 230V",
            VictronProductId::Phoenix_Inverter_48V_500VA_230V => "Phoenix Inverter 48V 500VA 230V",
        }
    }
}

impl WireEnum for VictronProductId {
    open spec fn wire_code(self) -> int {
        self.code_of() as int
    }

    proof fn lemma_codes_differ(a: Self, b: Self) {
    }

    fn from_code(code: i64) -> (member: Option<Self>) {
        match code {
            0x203 => Some(VictronProductId::BMV700),
            0x204 => Some(VictronProductId::BMV702),
            0x205 => Some(VictronProductId::BMV700H),
            0x300 => Some(VictronProductId::BlueSolar_MPPT_70_15),
            0xA040 => Some(VictronProductId::BlueSolar_MPPT_75_50),
            0xA041 => Some(VictronProductId::BlueSolar_MPPT_150_35_rev1),
            0xA042 => Some(VictronProductId::BlueSolar_MPPT_75_15),
            0xA043 => Some(VictronProductId::BlueSolar_MPPT_100_15),
            0xA044 => Some(VictronProductId::BlueSolar_MPPT_100_30_rev1),
            0xA045 => Some(VictronProductId::BlueSolar_MPPT_100_50_rev1),
            0xA046 => Some(VictronProductId::BlueSolar_MPPT_150_70),
            0xA047 => Some(VictronProductId::BlueSolar_MPPT_150_100),
            0xA049 => Some(VictronProductId::BlueSolar_MPPT_100_50_rev2),
            0xA04A => Some(VictronProductId::BlueSolar_MPPT_100_30_rev2),
            0xA04B => Some(VictronProductId::BlueSolar_MPPT_150_35_rev2),
            0xA04C => Some(VictronProductId::BlueSolar_MPPT_75_10),
            0xA04D => Some(VictronProductId::BlueSolar_MPPT_150_45),
            0xA04E => Some(VictronProductId::BlueSolar_MPPT_150_60),
            0xA04F => Some(VictronProductId::BlueSolar_MPPT_150_85),
            0xA050 => Some(VictronProductId::SmartSolar_MPPT_250_100),
            0xA051 => Some(VictronProductId::SmartSolar_MPPT_150_100),
            0xA201 => Some(VictronProductId::Phoenix_Inverter_12V_250VA_230V),
            0xA202 => Some(VictronProductId::Phoenix_Inverter_24V_250VA_230V),
            0xA204 => Some(VictronProductId::Phoenix_Inverter_48V_250VA_230V),
            0xA211 => Some(VictronProductId::Phoenix_Inverter_12V_375VA_230V),
            0xA212 => Some(VictronProductId::Phoenix_Inverter_24V_375VA_230V),
            0xA214 => Some(VictronProductId::Phoenix_Inverter_48V_375VA_230V),
            0xA221 => Some(VictronProductId::Phoenix_Inverter_12V_500VA_230V),
            0xA222 => Some(VictronProductId::Phoenix_Inverter_24V_500VA_230V),
            0xA224 => Some(VictronProductId::Phoenix_Inverter_48V_500VA_230V),
            _ => None,
        }
    }
}

/// The state of operation that a charger reports in its field `CS`.
#[derive(Debug, Clone, Copy, PartialEq, Eq, Structural)]
pub enum ChargeState {
    /// Off
    Off,
    /// Fault
    Fault,
    /// Bulk
    Bulk,
    /// Absorption
    Absorption,
    /// Float
    Float,
}

impl ChargeState {
    /// The number that stands for this member on the wire.
    pub open spec fn code_of(self) -> u32 {
        match self {
            ChargeState::Off => 0,
            ChargeState::Fault => 2,
            ChargeState::Bulk => 3,
            ChargeState::Absorption => 4,
            ChargeState::Float => 5,
        }
    }

    /// The number that stands for this member on the wire.
    pub fn code(&self) -> (code: u32)
        ensures
            code == self.code_of(),
    {
        match self {
            ChargeState::Off => 0,
            ChargeState::Fault => 2,
            ChargeState::Bulk => 3,
            ChargeState::Absorption => 4,
            ChargeState::Float => 5,
        }
    }
}

impl WireEnum for ChargeState {
    open spec fn wire_code(self) -> int {
        self.code_of() as int
    }

    proof fn lemma_codes_differ(a: Self, b: Self) {
    }

    fn from_code(code: i64) -> (member: Option<Self>) {
        match code {
            0 => Some(ChargeState::Off),
            2 => Some(ChargeState::Fault),
            3 => Some(ChargeState::Bulk),
            4 => Some(ChargeState::Absorption),
            5 => Some(ChargeState::Float),
            _ => None,
        }
    }
}

/// The error that a charger reports in its field `ERR`.
#[derive(Debug, Clone, Copy, PartialEq, Eq, Structural)]
pub enum ErrorCode {
    /// No error
    NoError,
    /// Battery voltage too high
    BatteryVoltageTooHigh,
    /// Charger temperature too high
    ChargerTemperatureTooHigh,
    /// Charger over current
    ChargerOverCurrent,
    /// Charger current reversed
    ChargerCurrentReversed,
    /// Bulk time limit exceeded
    BulkTimeLimitExceeded,
    /// Current sensor issue
    CurrentSensorIssue,
    /// Terminals overheated
    TerminalsOverheated,
    /// Solar input voltage too high
    SolarInputVoltageTooHigh,
    /// Solar input current too high
    SolarInputCurrentTooHigh,
    /// Input shutdown
    InputShutdown,
    /// Factory calibration data lost
    FactoryCalibrationDataLost,
    /// Invalid firmware
    InvalidFirmware,
    /// User settings invalid
    UserSettingsInvalid,
}

impl ErrorCode {
    /// The number that stands for this member on the wire.
    pub open spec fn code_of(self) -> u32 {
        match self {
            ErrorCode::NoError => 0,
            ErrorCode::BatteryVoltageTooHigh => 2,
            ErrorCode::ChargerTemperatureTooHigh => 17,
            ErrorCode::ChargerOverCurrent => 18,
            ErrorCode::ChargerCurrentReversed => 19,
            ErrorCode::BulkTimeLimitExceeded => 20,
            ErrorCode::CurrentSensorIssue => 21,
            ErrorCode::TerminalsOverheated => 26,
            ErrorCode::SolarInputVoltageTooHigh => 33,
            ErrorCode::SolarInputCurrentTooHigh => 34,
            ErrorCode::InputShutdown => 38,
            ErrorCode::FactoryCalibrationDataLost => 116,
            ErrorCode::InvalidFirmware => 117,
            ErrorCode::UserSettingsInvalid => 119,
        }
    }

    /// The error in words.
    pub open spec fn description_of(self) -> Seq<char> {
        match self {
            ErrorCode::NoError => "No error"@,
            ErrorCode::BatteryVoltageTooHigh => "Battery voltage too high"@,
            ErrorCode::ChargerTemperatureTooHigh => "Charger temperature too high"@,
            ErrorCode::ChargerOverCurrent => "Charger over current"@,
            ErrorCode::ChargerCurrentReversed => "Charger current reversed"@,
            ErrorCode::BulkTimeLimitExceeded => "Bulk time limit exceeded"@,
            ErrorCode::CurrentSensorIssue => "Current sensor issue"@,
            ErrorCode::TerminalsOverheated => "Terminals overheated"@,
            ErrorCode::SolarInputVoltageTooHigh => "Solar input voltage too high"@,
            ErrorCode::SolarInputCurrentTooHigh => "Solar input current too high"@,
            ErrorCode::InputShutdown => "Input shutdown"@,
            ErrorCode::FactoryCalibrationDataLost => "Factory calibration data lost"@,
            ErrorCode::InvalidFirmware => "Invalid firmware"@,
            ErrorCode::UserSettingsInvalid => "User settings invalid"@,
        }
    }

    /// The number that stands for this member on the wire.
    pub fn code(&self) -> (code: u32)
        ensures
            code == self.code_of(),
    {
        match self {
            ErrorCode::NoError => 0,
            ErrorCode::BatteryVoltageTooHigh => 2,
            ErrorCode::ChargerTemperatureTooHigh => 17,
            ErrorCode::ChargerOverCurrent => 18,
            ErrorCode::ChargerCurrentReversed => 19,
            ErrorCode::BulkTimeLimitExceeded => 20,
            ErrorCode::CurrentSensorIssue => 21,
            ErrorCode::TerminalsOverheated => 26,
            ErrorCode::SolarInputVoltageTooHigh => 33,
            ErrorCode::SolarInputCurrentTooHigh => 34,
            ErrorCode::InputShutdown => 38,
            ErrorCode::FactoryCalibrationDataLost => 116,
            ErrorCode::InvalidFirmware => 117,
            ErrorCode::UserSettingsInvalid => 119,
        }
    }

    /// The error in words.
    pub fn description(&self) -> (text: &'static str)
        ensures
            text@ == self.description_of(),
    {
        match self {
            ErrorCode::NoError => "No error",
            ErrorCode::BatteryVoltageTooHigh => "Battery voltage too high",
            ErrorCode::ChargerTemperatureTooHigh => "Charger temperature too high",
            ErrorCode::ChargerOverCurrent => "Charger over current",
            ErrorCode::ChargerCurrentReversed => "Charger current reversed",
            ErrorCode::BulkTimeLimitExceeded => "Bulk time limit exceeded",
            ErrorCode::CurrentSensorIssue => "Current sensor issue",
            ErrorCode::TerminalsOverheated => "Terminals overheated",
            ErrorCode::SolarInputVoltageTooHigh => "Solar input voltage too high",
            ErrorCode::SolarInputCurrentTooHigh => "Solar input current too high",
            ErrorCode::InputShutdown => "Input shutdown",
            ErrorCode::FactoryCalibrationDataLost => "Factory calibration data lost",
            ErrorCode::InvalidFirmware => "Invalid firmware",
            ErrorCode::UserSettingsInvalid => "User settings invalid",
        }
    }
}

impl WireEnum for ErrorCode {
    open spec fn wire_code(self) -> int {
        self.code_of() as int
    }

    proof fn lemma_codes_differ(a: Self, b: Self) {
    }

    fn from_code(code: i64) -> (member: Option<Self>) {
        match code {
            0 => Some(ErrorCode::NoError),
            2 => Some(ErrorCode::BatteryVoltageTooHigh),
            17 => Some(ErrorCode::ChargerTemperatureTooHigh),
            18 => Some(ErrorCode::ChargerOverCurrent),
            19 => Some(ErrorCode::ChargerCurrentReversed),
            20 => Some(ErrorCode::BulkTimeLimitExceeded),
            21 => Some(ErrorCode::CurrentSensorIssue),
            26 => Some(ErrorCode::TerminalsOverheated),
            33 => Some(ErrorCode::SolarInputVoltageTooHigh),
            34 => Some(ErrorCode::SolarInputCurrentTooHigh),
            38 => Some(ErrorCode::InputShutdown),
            116 => Some(ErrorCode::FactoryCalibrationDataLost),
            117 => Some(ErrorCode::InvalidFirmware),
            119 => Some(ErrorCode::UserSettingsInvalid),
            _ => None,
        }
    }
}

} // verus!
