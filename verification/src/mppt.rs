//! The record of an MPPT solar charge controller, built from the fields
//! of one frame.
//!
//! A frame of such a device looks like this, with a tab between key and
//! value:
//!
//! ```text
//! PID     0xA042
//! FW      150
//! SER#    HQ1328Y6TF6
//! V       12340
//! I       1230
//! VPV     36630
//! PPV     99
//! CS      0
//! MPPT    0
//! OR      0x00000001
//! ERR     0
//! LOAD    ON
//! IL      5430
//! H19     1234
//! H20     2345
//! H21     99
//! H22     4567
//! H23     98
//! HSDS    0
//! Checksum        ?
//! ```

use crate::checksum::{frame_is_valid, verify};
use crate::constants::{ChargeState, ErrorCode, VictronProductId};
use crate::firmware_version::{decoded_version, version_outcome, FirmwareVersion};
use crate::framing::{
    frame_bytes, frames_bytes, frames_fields, lemma_whole_frames, sendable_frame, FrameModel,
};
use crate::mapping::FromFields;
use crate::parser::{checksum_key, parse, tokens, Field, FieldModel};
use crate::text::{
    decimal_digits, decimal_text, hex_digits, hex_text, integer_of, signed_digits, signed_text,
};
use crate::types::{Current, KilowattHour, Scaled, Volt, Watt, CENTI, MILLI};
use crate::utils::{
    byte_field, enum_field, field_value, key_bytes, off_value, on_value, optional_bool,
    optional_scaled, optional_scaled_field, ranged_field, required_byte, required_enum,
    required_integer_within, required_scaled, required_string, scaled_field, switch_field,
    text_field,
};
use crate::ve_error::{ErrorModel, VeError};
use vstd::prelude::*;
use vstd::utf8::is_ascii_chars_encode_utf8;

verus! {

/// Data of an MPPT solar charge controller.
#[allow(non_camel_case_types)]
#[derive(Debug, Clone, PartialEq, Eq)]
pub struct Mppt75_15 {
    /// Label: PID, the product
    pub pid: VictronProductId,
    /// Label: FW, the firmware version as reported: `150` is version 1.50
    pub firmware: String,
    /// Label: SER#, the serial number, such as `HQ1328Y6TF6`
    pub serial_number: String,
    /// Label: V, the main (battery) voltage, sent in mV, held in V
    pub voltage: Volt,
    /// Label: I, the battery current, sent in mA, held in A
    pub current: Current,
    /// Label: VPV, the panel voltage, sent in mV, held in V
    pub vpv: Volt,
    /// Label: PPV, the panel power in W
    pub ppv: Watt,
    /// Label: CS, the state of operation
    pub charge_state: ChargeState,
    /// Label: MPPT, the tracker's mode of operation, as reported
    pub mppt: String,
    /// Label: OR, the reason for being off, as reported
    pub or: String,
    /// Label: ERR, the error code
    pub error: ErrorCode,
    /// Label: LOAD, whether the load output is on; absent on devices without one
    pub load: Option<bool>,
    /// Label: IL, the load current, sent in mA, held in A; absent on devices without a load output
    pub load_current: Option<Current>,
    /// Label: H19, the yield in total, sent in 0.01 kWh, held in kWh
    pub yield_total: KilowattHour,
    /// Label: H20, the yield today, sent in 0.01 kWh, held in kWh
    pub yield_today: KilowattHour,
    /// Label: H21, the maximum power today in W
    pub max_power_today: Watt,
    /// Label: H22, the yield yesterday, sent in 0.01 kWh, held in kWh
    pub yield_yesterday: KilowattHour,
    /// Label: H23, the maximum power yesterday in W
    pub max_power_yesterday: Watt,
    /// Label: HSDS, the day sequence number, 0 to 364; a change marks a new day
    pub hsds: u16,
    /// Label: Checksum, the byte that closed the frame
    pub checksum: u8,
}

/// The mathematical value of a [`Mppt75_15`].
pub struct MpptModel {
    pub pid: VictronProductId,
    pub firmware: Seq<char>,
    pub serial_number: Seq<char>,
    pub voltage: Volt,
    pub current: Current,
    pub vpv: Volt,
    pub ppv: Watt,
    pub charge_state: ChargeState,
    pub mppt: Seq<char>,
    pub or: Seq<char>,
    pub error: ErrorCode,
    pub load: Option<bool>,
    pub load_current: Option<Current>,
    pub yield_total: KilowattHour,
    pub yield_today: KilowattHour,
    pub max_power_today: Watt,
    pub yield_yesterday: KilowattHour,
    pub max_power_yesterday: Watt,
    pub hsds: u16,
    pub checksum: u8,
}

impl View for Mppt75_15 {
    type V = MpptModel;

    open spec fn view(&self) -> MpptModel {
        MpptModel {
            pid: self.pid,
            firmware: self.firmware@,
            serial_number: self.serial_number@,
            voltage: self.voltage,
            current: self.current,
            vpv: self.vpv,
            ppv: self.ppv,
            charge_state: self.charge_state,
            mppt: self.mppt@,
            or: self.or@,
            error: self.error,
            load: self.load,
            load_current: self.load_current,
            yield_total: self.yield_total,
            yield_today: self.yield_today,
            max_power_today: self.max_power_today,
            yield_yesterday: self.yield_yesterday,
            max_power_yesterday: self.max_power_yesterday,
            hsds: self.hsds,
            checksum: self.checksum,
        }
    }
}

/// A product that has a name.
pub trait VictronProduct {
    /// The name under which the product is sold.
    spec fn name_of(&self) -> Seq<char>;

    /// The name under which the product is sold.
    fn get_name(&self) -> (name: String)
        ensures
            name@ == self.name_of(),
    ;
}

impl VictronProduct for Mppt75_15 {
    open spec fn name_of(&self) -> Seq<char> {
        self.pid.name_of()
    }

    fn get_name(&self) -> (name: String) {
        String::from_str(self.pid.name())
    }
}

/// The power of a field that must be there: an integer of 32 bits.
pub open spec fn watt_field(fields: Seq<FieldModel>, key: Seq<char>) -> Result<Watt, ErrorModel> {
    match ranged_field(fields, key, i32::MIN as i64, i32::MAX as i64) {
        Ok(n) => Ok(n as i32),
        Err(e) => Err(e),
    }
}

/// The day sequence number of a field that must be there: an unsigned
/// integer of 32 bits, of which the low 16 bits are kept.
pub open spec fn day_field(fields: Seq<FieldModel>, key: Seq<char>) -> Result<u16, ErrorModel> {
    match ranged_field(fields, key, 0, u32::MAX as i64) {
        Ok(n) => Ok((n % 0x1_0000) as u16),
        Err(e) => Err(e),
    }
}

/// Reads a power in watts.
fn required_watt(fields: &Vec<Field>, key: &str) -> (r: Result<Watt, VeError>)
    ensures
        match r {
            Ok(w) => watt_field(fields.deep_view(), key@) == Ok::<Watt, ErrorModel>(w),
            Err(e) => watt_field(fields.deep_view(), key@) == Err::<Watt, ErrorModel>(e@),
        },
{
    let n = required_integer_within(fields, key, i32::MIN as i64, i32::MAX as i64)?;
    Ok(n as i32)
}

/// Reads a day sequence number.
fn required_day(fields: &Vec<Field>, key: &str) -> (r: Result<u16, VeError>)
    ensures
        match r {
            Ok(d) => day_field(fields.deep_view(), key@) == Ok::<u16, ErrorModel>(d),
            Err(e) => day_field(fields.deep_view(), key@) == Err::<u16, ErrorModel>(e@),
        },
{
    let n = required_integer_within(fields, key, 0, u32::MAX as i64)?;
    Ok((n % 0x1_0000) as u16)
}

/// The record that the fields of a frame give, field by field in the
/// order of the record: the error of the first field that is absent
/// though required, or has the wrong shape, else the record of all of
/// them. Voltages and currents are sent in thousandths, yields in
/// hundredths, powers in watts.
pub open spec fn mapped_record(fields: Seq<FieldModel>) -> Result<MpptModel, ErrorModel> {
    let pid = enum_field::<VictronProductId>(fields, "PID"@);
    let firmware = text_field(fields, "FW"@);
    let serial_number = text_field(fields, "SER#"@);
    let voltage = scaled_field(fields, "V"@, MILLI);
    let current = scaled_field(fields, "I"@, MILLI);
    let vpv = scaled_field(fields, "VPV"@, MILLI);
    let ppv = watt_field(fields, "PPV"@);
    let charge_state = enum_field::<ChargeState>(fields, "CS"@);
    let mppt = text_field(fields, "MPPT"@);
    let or = text_field(fields, "OR"@);
    let error = enum_field::<ErrorCode>(fields, "ERR"@);
    let load = switch_field(fields, "LOAD"@);
    let load_current = optional_scaled_field(fields, "IL"@, MILLI);
    let yield_total = scaled_field(fields, "H19"@, CENTI);
    let yield_today = scaled_field(fields, "H20"@, CENTI);
    let max_power_today = watt_field(fields, "H21"@);
    let yield_yesterday = scaled_field(fields, "H22"@, CENTI);
    let max_power_yesterday = watt_field(fields, "H23"@);
    let hsds = day_field(fields, "HSDS"@);
    let checksum = byte_field(fields, "Checksum"@);
    if pid is Err {
        Err(pid->Err_0)
    } else if firmware is Err {
        Err(firmware->Err_0)
    } else if serial_number is Err {
        Err(serial_number->Err_0)
    } else if voltage is Err {
        Err(voltage->Err_0)
    } else if current is Err {
        Err(current->Err_0)
    } else if vpv is Err {
        Err(vpv->Err_0)
    } else if ppv is Err {
        Err(ppv->Err_0)
    } else if charge_state is Err {
        Err(charge_state->Err_0)
    } else if mppt is Err {
        Err(mppt->Err_0)
    } else if or is Err {
        Err(or->Err_0)
    } else if error is Err {
        Err(error->Err_0)
    } else if load is Err {
        Err(load->Err_0)
    } else if load_current is Err {
        Err(load_current->Err_0)
    } else if yield_total is Err {
        Err(yield_total->Err_0)
    } else if yield_today is Err {
        Err(yield_today->Err_0)
    } else if max_power_today is Err {
        Err(max_power_today->Err_0)
    } else if yield_yesterday is Err {
        Err(yield_yesterday->Err_0)
    } else if max_power_yesterday is Err {
        Err(max_power_yesterday->Err_0)
    } else if hsds is Err {
        Err(hsds->Err_0)
    } else if checksum is Err {
        Err(checksum->Err_0)
    } else {
        Ok(
            MpptModel {
                pid: pid->Ok_0,
                firmware: firmware->Ok_0,
                serial_number: serial_number->Ok_0,
                voltage: voltage->Ok_0,
                current: current->Ok_0,
                vpv: vpv->Ok_0,
                ppv: ppv->Ok_0,
                charge_state: charge_state->Ok_0,
                mppt: mppt->Ok_0,
                or: or->Ok_0,
                error: error->Ok_0,
                load: load->Ok_0,
                load_current: load_current->Ok_0,
                yield_total: yield_total->Ok_0,
                yield_today: yield_today->Ok_0,
                max_power_today: max_power_today->Ok_0,
                yield_yesterday: yield_yesterday->Ok_0,
                max_power_yesterday: max_power_yesterday->Ok_0,
                hsds: hsds->Ok_0,
                checksum: checksum->Ok_0,
            },
        )
    }
}

/// Whether a record cannot do without the field of this key. The fields
/// `LOAD` and `IL` are not among them: not every device has a load
/// output.
pub open spec fn is_required_key(key: Seq<char>) -> bool {
    ||| key == "PID"@
    ||| key == "FW"@
    ||| key == "SER#"@
    ||| key == "V"@
    ||| key == "I"@
    ||| key == "VPV"@
    ||| key == "PPV"@
    ||| key == "CS"@
    ||| key == "MPPT"@
    ||| key == "OR"@
    ||| key == "ERR"@
    ||| key == "H19"@
    ||| key == "H20"@
    ||| key == "H21"@
    ||| key == "H22"@
    ||| key == "H23"@
    ||| key == "HSDS"@
    ||| key == "Checksum"@
}

/// Whether the field of this key, where it is there, must hold an
/// integer.
pub open spec fn is_integer_key(key: Seq<char>) -> bool {
    ||| key == "PID"@
    ||| key == "V"@
    ||| key == "I"@
    ||| key == "VPV"@
    ||| key == "PPV"@
    ||| key == "CS"@
    ||| key == "ERR"@
    ||| key == "IL"@
    ||| key == "H19"@
    ||| key == "H20"@
    ||| key == "H21"@
    ||| key == "H22"@
    ||| key == "H23"@
    ||| key == "HSDS"@
}

/// All or nothing, for an absent field: where a required field is
/// absent there is no record. The error that is returned is that of the
/// first field, in the order of the record, that fails: the absent one,
/// or one before it that is absent, malformed or names no member.
pub proof fn lemma_missing_field_fails(fields: Seq<FieldModel>, key: Seq<char>)
    requires
        is_required_key(key),
        field_value(fields, key_bytes(key)) is None,
    ensures
        mapped_record(fields) is Err,
{
}

/// All or nothing, for a malformed field: where a field that must hold
/// an integer holds something else, or the switch `LOAD` is neither `ON`
/// nor `OFF`, there is no record. The error that is returned is that of
/// the first field, in the order of the record, that fails.
pub proof fn lemma_malformed_field_fails(fields: Seq<FieldModel>, key: Seq<char>)
    requires
        field_value(fields, key_bytes(key)) is Some,
        (is_integer_key(key) && integer_of(field_value(fields, key_bytes(key)).unwrap()) is None)
            || (key == "LOAD"@ && field_value(fields, key_bytes(key)).unwrap() != on_value()
            && field_value(fields, key_bytes(key)).unwrap() != off_value()),
    ensures
        mapped_record(fields) is Err,
{
}

/// All or nothing: there is a record exactly where every field of it
/// converts, and then each field of the record is what its conversion
/// gave.
pub proof fn lemma_record_iff_every_field(fields: Seq<FieldModel>)
    ensures
        mapped_record(fields) is Ok <==> {
            &&& enum_field::<VictronProductId>(fields, "PID"@) is Ok
            &&& text_field(fields, "FW"@) is Ok
            &&& text_field(fields, "SER#"@) is Ok
            &&& scaled_field(fields, "V"@, MILLI) is Ok
            &&& scaled_field(fields, "I"@, MILLI) is Ok
            &&& scaled_field(fields, "VPV"@, MILLI) is Ok
            &&& watt_field(fields, "PPV"@) is Ok
            &&& enum_field::<ChargeState>(fields, "CS"@) is Ok
            &&& text_field(fields, "MPPT"@) is Ok
            &&& text_field(fields, "OR"@) is Ok
            &&& enum_field::<ErrorCode>(fields, "ERR"@) is Ok
            &&& switch_field(fields, "LOAD"@) is Ok
            &&& optional_scaled_field(fields, "IL"@, MILLI) is Ok
            &&& scaled_field(fields, "H19"@, CENTI) is Ok
            &&& scaled_field(fields, "H20"@, CENTI) is Ok
            &&& watt_field(fields, "H21"@) is Ok
            &&& scaled_field(fields, "H22"@, CENTI) is Ok
            &&& watt_field(fields, "H23"@) is Ok
            &&& day_field(fields, "HSDS"@) is Ok
            &&& byte_field(fields, "Checksum"@) is Ok
        },
        mapped_record(fields) matches Ok(record) ==> {
            &&& Ok::<VictronProductId, ErrorModel>(record.pid) == enum_field::<VictronProductId>(
                fields,
                "PID"@,
            )
            &&& Ok::<Scaled, ErrorModel>(record.voltage) == scaled_field(fields, "V"@, MILLI)
            &&& Ok::<Scaled, ErrorModel>(record.current) == scaled_field(fields, "I"@, MILLI)
            &&& Ok::<Scaled, ErrorModel>(record.vpv) == scaled_field(fields, "VPV"@, MILLI)
            &&& Ok::<Scaled, ErrorModel>(record.yield_total) == scaled_field(fields, "H19"@, CENTI)
            &&& Ok::<Scaled, ErrorModel>(record.yield_today) == scaled_field(fields, "H20"@, CENTI)
            &&& Ok::<Scaled, ErrorModel>(record.yield_yesterday) == scaled_field(
                fields,
                "H22"@,
                CENTI,
            )
            &&& Ok::<u8, ErrorModel>(record.checksum) == byte_field(fields, "Checksum"@)
        },
{
}

impl FromFields for Mppt75_15 {
    open spec fn mapped(fields: Seq<FieldModel>) -> Result<MpptModel, ErrorModel> {
        mapped_record(fields)
    }

    fn map_fields(fields: &Vec<Field>) -> (r: Result<Self, VeError>) {
        Ok(
            Mppt75_15 {
                pid: required_enum::<VictronProductId>(fields, "PID")?,
                firmware: required_string(fields, "FW")?,
                serial_number: required_string(fields, "SER#")?,
                voltage: required_scaled(fields, "V", MILLI)?,
                current: required_scaled(fields, "I", MILLI)?,
                vpv: required_scaled(fields, "VPV", MILLI)?,
                ppv: required_watt(fields, "PPV")?,
                charge_state: required_enum::<ChargeState>(fields, "CS")?,
                mppt: required_string(fields, "MPPT")?,
                or: required_string(fields, "OR")?,
                error: required_enum::<ErrorCode>(fields, "ERR")?,
                load: optional_bool(fields, "LOAD")?,
                load_current: optional_scaled(fields, "IL", MILLI)?,
                yield_total: required_scaled(fields, "H19", CENTI)?,
                yield_today: required_scaled(fields, "H20", CENTI)?,
                max_power_today: required_watt(fields, "H21")?,
                yield_yesterday: required_scaled(fields, "H22", CENTI)?,
                max_power_yesterday: required_watt(fields, "H23")?,
                hsds: required_day(fields, "HSDS")?,
                checksum: required_byte(fields, "Checksum")?,
            },
        )
    }
}

/// The record that the bytes of a frame give: the fields of the frames in
/// the buffer, mapped. A buffer without a whole frame is malformed, as
/// one with a malformed line is.
pub open spec fn decoded_record(frame: Seq<u8>) -> Result<MpptModel, ErrorModel> {
    match tokens(frame) {
        Some((fields, _)) => if fields.len() == 0 {
            Err(ErrorModel::MalformedFrame)
        } else {
            mapped_record(fields)
        },
        None => Err(ErrorModel::MalformedFrame),
    }
}

/// The record that the bytes of a frame give once their checksum has
/// been verified.
pub open spec fn verified_record(frame: Seq<u8>) -> Result<MpptModel, ErrorModel> {
    if frame_is_valid(frame) {
        decoded_record(frame)
    } else {
        Err(ErrorModel::ChecksumMismatch)
    }
}

/// The key `Checksum` is written with the bytes that end a frame.
pub proof fn lemma_checksum_key_bytes()
    ensures
        key_bytes("Checksum"@) == checksum_key(),
{
    reveal_strlit("Checksum");
    is_ascii_chars_encode_utf8("Checksum"@);
}

/// The record of a frame keeps the byte that closed the frame: where the
/// bytes of a frame that can be sent give a record, its checksum is the
/// checksum of the frame.
pub proof fn lemma_record_keeps_checksum(frame: FrameModel)
    requires
        sendable_frame(frame),
    ensures
        decoded_record(frame_bytes(frame)) matches Ok(record) ==> record.checksum
            == frame.checksum,
{
    let one = seq![frame];
    assert(frames_bytes(one.drop_first()) =~= Seq::<u8>::empty());
    assert(frames_fields(one.drop_first()) =~= Seq::<FieldModel>::empty());
    lemma_whole_frames(one);
    lemma_checksum_key_bytes();
}

/// One line of the text of a record: a line break, the label, a tab and
/// the value.
pub open spec fn line(label: Seq<char>, value: Seq<char>) -> Seq<char> {
    "\r\n"@ + label + "\t"@ + value
}

/// The text of a record: a line for every field, in the order of the
/// record, and none for a load output that is absent. Quantities are
/// written as they are sent, in wire units; the product identifier in
/// hexadecimal; the enumerations and the checksum as decimal numbers.
pub open spec fn record_text(m: MpptModel) -> Seq<char> {
    let t = Seq::<char>::empty();
    let t = t + line("PID"@, "0x"@ + hex_digits(m.pid.code_of() as nat));
    let t = t + line("FW"@, m.firmware);
    let t = t + line("SER#"@, m.serial_number);
    let t = t + line("V"@, signed_digits(m.voltage.raw as int));
    let t = t + line("I"@, signed_digits(m.current.raw as int));
    let t = t + line("VPV"@, signed_digits(m.vpv.raw as int));
    let t = t + line("PPV"@, signed_digits(m.ppv as int));
    let t = t + line("CS"@, decimal_digits(m.charge_state.code_of() as nat));
    let t = t + line("MPPT"@, m.mppt);
    let t = t + line("OR"@, m.or);
    let t = t + line("ERR"@, decimal_digits(m.error.code_of() as nat));
    let t = match m.load {
        Some(on) => t + line(
            "LOAD"@,
            if on {
                "ON"@
            } else {
                "OFF"@
            },
        ),
        None => t,
    };
    let t = match m.load_current {
        Some(q) => t + line("IL"@, signed_digits(q.raw as int)),
        None => t,
    };
    let t = t + line("H19"@, signed_digits(m.yield_total.raw as int));
    let t = t + line("H20"@, signed_digits(m.yield_today.raw as int));
    let t = t + line("H21"@, signed_digits(m.max_power_today as int));
    let t = t + line("H22"@, signed_digits(m.yield_yesterday.raw as int));
    let t = t + line("H23"@, signed_digits(m.max_power_yesterday as int));
    let t = t + line("HSDS"@, decimal_digits(m.hsds as nat));
    let t = t + line("Checksum"@, decimal_digits(m.checksum as nat));
    t
}

/// The record that [`Mppt75_15::default`] returns.
pub open spec fn default_record() -> MpptModel {
    MpptModel {
        pid: VictronProductId::BlueSolar_MPPT_75_15,
        firmware: "150"@,
        serial_number: "HQ1328Y6TF6"@,
        voltage: Scaled { raw: 0, divisor: MILLI },
        current: Scaled { raw: 0, divisor: MILLI },
        vpv: Scaled { raw: 0, divisor: MILLI },
        ppv: 0,
        charge_state: ChargeState::Off,
        mppt: "0"@,
        or: "0x00000001"@,
        error: ErrorCode::NoError,
        load: None,
        load_current: None,
        yield_total: Scaled { raw: 0, divisor: CENTI },
        yield_today: Scaled { raw: 0, divisor: CENTI },
        max_power_today: 0,
        yield_yesterday: Scaled { raw: 0, divisor: CENTI },
        max_power_yesterday: 0,
        hsds: 0,
        checksum: 0,
    }
}

/// Adds a line to a text.
fn push_line(out: &mut String, label: &str, value: &str)
    ensures
        final(out)@ == old(out)@ + line(label@, value@),
{
    out.append("\r\n");
    out.append(label);
    out.append("\t");
    out.append(value);
}

impl Default for Mppt75_15 {
    fn default() -> (record: Self)
        ensures
            record@ == default_record(),
    {
        Mppt75_15 {
            pid: VictronProductId::BlueSolar_MPPT_75_15,
            firmware: String::from_str("150"),
            serial_number: String::from_str("HQ1328Y6TF6"),
            voltage: Scaled { raw: 0, divisor: MILLI },
            current: Scaled { raw: 0, divisor: MILLI },
            vpv: Scaled { raw: 0, divisor: MILLI },
            ppv: 0,
            charge_state: ChargeState::Off,
            mppt: String::from_str("0"),
            or: String::from_str("0x00000001"),
            error: ErrorCode::NoError,
            load: None,
            load_current: None,
            yield_total: Scaled { raw: 0, divisor: CENTI },
            yield_today: Scaled { raw: 0, divisor: CENTI },
            max_power_today: 0,
            yield_yesterday: Scaled { raw: 0, divisor: CENTI },
            max_power_yesterday: 0,
            hsds: 0,
            checksum: 0,
        }
    }
}

impl Mppt75_15 {
    /// Creates a new device based on the provided frame. The checksum of
    /// the frame is not verified.
    pub fn new(frame: &[u8]) -> (r: Result<Self, VeError>)
        ensures
            match r {
                Ok(record) => decoded_record(frame@) == Ok::<MpptModel, ErrorModel>(record@),
                Err(e) => decoded_record(frame@) == Err::<MpptModel, ErrorModel>(e@),
            },
    {
        let (raw, _remainder) = parse(frame)?;
        if raw.len() == 0 {
            return Err(VeError::MalformedFrame);
        }
        Mppt75_15::map_fields(&raw)
    }

    /// Creates a new device based on the provided frame, once the
    /// checksum has been verified over all its bytes. A frame that fails
    /// is refused whole, whatever its fields hold.
    pub fn new_verified(frame: &[u8]) -> (r: Result<Self, VeError>)
        ensures
            match r {
                Ok(record) => verified_record(frame@) == Ok::<MpptModel, ErrorModel>(record@),
                Err(e) => verified_record(frame@) == Err::<MpptModel, ErrorModel>(e@),
            },
    {
        if verify(frame) {
            Mppt75_15::new(frame)
        } else {
            Err(VeError::ChecksumMismatch)
        }
    }

    /// Decodes the firmware version that the device reports.
    pub fn firmware_version(&self) -> (r: Result<FirmwareVersion, VeError>)
        ensures
            version_outcome(r) == decoded_version(self.firmware@),
    {
        FirmwareVersion::from_str(self.firmware.as_str())
    }

    /// Creates a device from the values of its fields.
    pub fn init(
        pid: VictronProductId,
        firmware: String,
        serial_number: String,
        voltage: Volt,
        current: Current,
        vpv: Volt,
        ppv: Watt,
        charge_state: ChargeState,
        mppt: String,
        or: String,
        error: ErrorCode,
        load: Option<bool>,
        load_current: Option<Current>,
        yield_total: KilowattHour,
        yield_today: KilowattHour,
        max_power_today: Watt,
        yield_yesterday: KilowattHour,
        max_power_yesterday: Watt,
        hsds: u16,
        checksum: u8,
    ) -> (record: Self)
        ensures
            record == (Mppt75_15 {
                pid,
                firmware,
                serial_number,
                voltage,
                current,
                vpv,
                ppv,
                charge_state,
                mppt,
                or,
                error,
                load,
                load_current,
                yield_total,
                yield_today,
                max_power_today,
                yield_yesterday,
                max_power_yesterday,
                hsds,
                checksum,
            }),
    {
        Mppt75_15 {
            pid,
            firmware,
            serial_number,
            voltage,
            current,
            vpv,
            ppv,
            charge_state,
            mppt,
            or,
            error,
            load,
            load_current,
            yield_total,
            yield_today,
            max_power_today,
            yield_yesterday,
            max_power_yesterday,
            hsds,
            checksum,
        }
    }

    /// Writes the record as text, a line for every field.
    pub fn to_string(&self) -> (text: String)
        ensures
            text@ == record_text(self@),
    {
        let mut out = String::new();
        let mut pid = String::from_str("0x");
        pid.append(hex_text(self.pid.code()).as_str());
        push_line(&mut out, "PID", pid.as_str());
        push_line(&mut out, "FW", self.firmware.as_str());
        push_line(&mut out, "SER#", self.serial_number.as_str());
        push_line(&mut out, "V", signed_text(self.voltage.raw).as_str());
        push_line(&mut out, "I", signed_text(self.current.raw).as_str());
        push_line(&mut out, "VPV", signed_text(self.vpv.raw).as_str());
        push_line(&mut out, "PPV", signed_text(self.ppv as i64).as_str());
        push_line(&mut out, "CS", decimal_text(self.charge_state.code() as u64).as_str());
        push_line(&mut out, "MPPT", self.mppt.as_str());
        push_line(&mut out, "OR", self.or.as_str());
        push_line(&mut out, "ERR", decimal_text(self.error.code() as u64).as_str());
        match self.load {
            Some(on) => {
                push_line(
                    &mut out,
                    "LOAD",
                    if on {
                        "ON"
                    } else {
                        "OFF"
                    },
                );
            },
            None => {},
        }
        match self.load_current {
            Some(q) => {
                push_line(&mut out, "IL", signed_text(q.raw).as_str());
            },
            None => {},
        }
        push_line(&mut out, "H19", signed_text(self.yield_total.raw).as_str());
        push_line(&mut out, "H20", signed_text(self.yield_today.raw).as_str());
        push_line(&mut out, "H21", signed_text(self.max_power_today as i64).as_str());
        push_line(&mut out, "H22", signed_text(self.yield_yesterday.raw).as_str());
        push_line(&mut out, "H23", signed_text(self.max_power_yesterday as i64).as_str());
        push_line(&mut out, "HSDS", decimal_text(self.hsds as u64).as_str());
        push_line(&mut out, "Checksum", decimal_text(self.checksum as u64).as_str());
        out
    }
}

} // verus!
