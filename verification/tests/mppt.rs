use vedirect::checksum::{append, calculate};
use vedirect::constants::{ChargeState, ErrorCode, VictronProductId};
use vedirect::firmware_version::VersionType;
use vedirect::mapping::FromFields;
use vedirect::mppt::{Mppt75_15, VictronProduct};
use vedirect::parser::parse;
use vedirect::types::Scaled;
use vedirect::ve_error::VeError;

/// The quantity in the unit of the record.
fn value(q: Scaled) -> f32 {
    q.raw as f32 / q.divisor as f32
}

/// The quantity of `value` units, counted in `divisor` parts of the unit.
fn scaled(value: f32, divisor: u32) -> Scaled {
    Scaled::new((value * divisor as f32).round() as i64, divisor)
}

#[test]
fn test_mppt_to_string() {
    let mppt = Mppt75_15::default();
    let frame = mppt.to_string();
    let default_frame = "\r\nPID\t0xA042\r\nFW\t150\r\nSER#\tHQ1328Y6TF6\r\nV\t0\r\nI\t0\r\nVPV\t0\r\nPPV\t0\r\nCS\t0\r\nMPPT\t0\r\nOR\t0x00000001\r\nERR\t0\r\nH19\t0\r\nH20\t0\r\nH21\t0\r\nH22\t0\r\nH23\t0\r\nHSDS\t0\r\nChecksum\t0";
    assert_eq!(frame, default_frame);
}

#[test]
fn test_mppt_1() {
    let mppt = Mppt75_15::default();
    let frame = mppt.to_string();
    let sample_frame = frame.as_bytes();
    let (raw, _remainder) = parse(sample_frame).unwrap();
    let device = Mppt75_15::map_fields(&raw).unwrap();

    assert_eq!(device.pid, VictronProductId::BlueSolar_MPPT_75_15);
    assert_eq!(device.firmware, String::from("150"));
    assert_eq!(device.serial_number, "HQ1328Y6TF6");
    assert_eq!(value(device.voltage), 0.0);
    assert_eq!(value(device.current), 0.0);
    assert_eq!(device.load, None);
    assert_eq!(device.load_current, None);
    assert_eq!(value(device.vpv), 0.0);
    assert_eq!(device.ppv, 0);
    assert_eq!(device.charge_state, ChargeState::Off);
    assert_eq!(device.mppt, "0");
    assert_eq!(device.or, "0x00000001");
    assert_eq!(device.error, ErrorCode::NoError);
    assert_eq!(value(device.yield_total), 0_f32);
    assert_eq!(value(device.yield_today), 0_f32);
    assert_eq!(device.max_power_today, 0);
    assert_eq!(value(device.yield_yesterday), 0_f32);
    assert_eq!(device.max_power_yesterday, 0);
    assert_eq!(device.hsds, 0);
    // The byte after the key `Checksum` is the character 0.
    assert_eq!(device.checksum, b'0');

    assert_eq!(device.get_name(), "BlueSolar MPPT 75/15");
}

#[test]
fn test_mppt_older_versions() {
    let sample_frame = "\r\nPID\t0xA042\r\nFW\t150\r\nSER#\tHQ1328Y6TF6\r\nV\t0\r\nI\t0\r\nVPV\t0\r\nPPV\t0\r\nCS\t0\r\nMPPT\t0\r\nOR\t0x00000001\r\nERR\t0\r\nH19\t0\r\nH20\t0\r\nH21\t0\r\nH22\t0\r\nH23\t0\r\nHSDS\t0\r\nChecksum\t0".as_bytes();
    let (raw, _remainder) = parse(sample_frame).unwrap();
    let device = Mppt75_15::map_fields(&raw).unwrap();

    assert_eq!(device.pid, VictronProductId::BlueSolar_MPPT_75_15);
    assert_eq!(device.firmware, String::from("150"));
    assert_eq!(device.serial_number, "HQ1328Y6TF6");
    assert_eq!(value(device.voltage), 0.0);
    assert_eq!(value(device.current), 0.0);
    assert_eq!(value(device.vpv), 0.0);
    assert_eq!(device.ppv, 0);
    assert_eq!(device.charge_state, ChargeState::Off);
    assert_eq!(device.mppt, "0");
    assert_eq!(device.or, "0x00000001");
    assert_eq!(device.error, ErrorCode::NoError);
    assert_eq!(value(device.yield_total), 0_f32);
    assert_eq!(value(device.yield_today), 0_f32);
    assert_eq!(device.max_power_today, 0);
    assert_eq!(value(device.yield_yesterday), 0_f32);
    assert_eq!(device.max_power_yesterday, 0);
    assert_eq!(device.hsds, 0);
    // The byte after the key `Checksum` is the character 0.
    assert_eq!(device.checksum, b'0');
}

const FULL_FRAME: &str = "\r\nPID\t0xA042\
    \r\nFW\t150\
    \r\nSER#\tHQ1328Y6TF6\
    \r\nV\t12340\
    \r\nI\t1230\
    \r\nVPV\t36630\
    \r\nPPV\t99\
    \r\nCS\t0\
    \r\nMPPT\t0\
    \r\nOR\t0x00000001\
    \r\nLOAD\tON\
    \r\nIL\t5430\
    \r\nERR\t26\
    \r\nH19\t1234\
    \r\nH20\t2345\
    \r\nH21\t99\
    \r\nH22\t4567\
    \r\nH23\t98\
    \r\nHSDS\t0\
    \r\nChecksum\t0";

#[test]
fn test_mppt_new() {
    let frame = "\r\nPID\t0xA042\
            \r\nFW\t150\
            \r\nSER#\tHQ1328Y6TF6\
            \r\nV\t12340\
            \r\nI\t1230\
            \r\nVPV\t36630\
            \r\nPPV\t99\
            \r\nCS\t0\
            \r\nMPPT\t0\
            \r\nOR\t0x00000001\
            \r\nLOAD\tON\
            \r\nIL\t5430\
            \r\nERR\t26\
            \r\nH19\t1234\
            \r\nH20\t2345\
            \r\nH21\t99\
            \r\nH22\t4567\
            \r\nH23\t98\
            \r\nHSDS\t0\
            \r\nChecksum\t0"
        .as_bytes();
    let device = Mppt75_15::new(frame).unwrap();

    assert_eq!(device.pid, VictronProductId::BlueSolar_MPPT_75_15);
    assert_eq!(device.firmware, String::from("150"));
    assert_eq!(device.serial_number, "HQ1328Y6TF6");
    assert_eq!(value(device.voltage), 12.34);
    assert_eq!(value(device.current), 1.23);
    assert_eq!(value(device.vpv), 36.63);
    assert_eq!(device.ppv, 99);
    assert_eq!(device.load, Some(true));
    assert_eq!(device.load_current.map(value), Some(5.43));
    assert_eq!(device.charge_state, ChargeState::Off);
    assert_eq!(device.mppt, "0");
    assert_eq!(device.or, "0x00000001");
    assert_eq!(device.error, ErrorCode::TerminalsOverheated);
    assert_eq!(value(device.yield_total), 12.34);
    assert_eq!(value(device.yield_today), 23.45);
    assert_eq!(device.max_power_today, 99);
    assert_eq!(value(device.yield_yesterday), 45.67);
    assert_eq!(device.max_power_yesterday, 98);
    assert_eq!(device.hsds, 0);
    // The byte after the key `Checksum` is the character 0.
    assert_eq!(device.checksum, b'0');
}

#[test]
fn test_mppt_init() {
    let device = Mppt75_15::init(
        VictronProductId::BlueSolar_MPPT_75_15,
        "420".into(),
        "HQ1328Y6TF6".into(),
        scaled(12.34, 1000),
        scaled(1.23, 1000),
        scaled(36.63, 1000),
        99,
        ChargeState::Float,
        "8".into(),
        "0x12345678".into(),
        ErrorCode::SolarInputCurrentTooHigh,
        Some(true),
        Some(scaled(17.45, 1000)),
        scaled(10000_f32, 100),
        scaled(500_f32, 100),
        98,
        scaled(489_f32, 100),
        97,
        4,
        12,
    );

    assert_eq!(device.pid, VictronProductId::BlueSolar_MPPT_75_15);
    assert_eq!(device.firmware, String::from("420"));
    assert_eq!(device.serial_number, "HQ1328Y6TF6");
    assert_eq!(value(device.voltage), 12.34);
    assert_eq!(value(device.current), 1.23);
    assert_eq!(value(device.vpv), 36.63);
    assert_eq!(device.ppv, 99);
    assert_eq!(device.charge_state, ChargeState::Float);
    assert_eq!(device.mppt, "8");
    assert_eq!(device.or, "0x12345678");
    assert_eq!(device.error, ErrorCode::SolarInputCurrentTooHigh);
    assert_eq!(value(device.yield_total), 10000_f32);
    assert_eq!(value(device.yield_today), 500_f32);
    assert_eq!(device.max_power_today, 98);
    assert_eq!(value(device.yield_yesterday), 489_f32);
    assert_eq!(device.max_power_yesterday, 97);
    assert_eq!(device.hsds, 4);
    assert_eq!(device.checksum, 12);
}

/// The full frame with the checksum that makes it valid.
fn valid_frame() -> Vec<u8> {
    let payload = &FULL_FRAME.as_bytes()[..FULL_FRAME.len() - 1];
    append(payload, calculate(payload))
}

#[test]
fn a_record_holds_its_quantities_exactly() {
    assert_eq!(scaled(12.34, 1000), Scaled { raw: 12340, divisor: 1000 });
    assert_eq!(scaled(17.45, 1000), Scaled { raw: 17450, divisor: 1000 });
    assert_eq!(scaled(10000_f32, 100), Scaled { raw: 1000000, divisor: 100 });
    assert_eq!(scaled(489_f32, 100), Scaled { raw: 48900, divisor: 100 });
}

#[test]
fn a_frame_with_its_right_checksum_maps_to_the_record() {
    let frame = valid_frame();
    let device = Mppt75_15::new_verified(&frame).unwrap();

    assert_eq!(value(device.voltage), 12.34);
    assert_eq!(value(device.current), 1.23);
    assert_eq!(value(device.vpv), 36.63);
    assert_eq!(device.ppv, 99);
    assert_eq!(device.load, Some(true));
    assert_eq!(device.load_current.map(value), Some(5.43));
    assert_eq!(device.error, ErrorCode::TerminalsOverheated);
    assert_eq!(device.error.code(), 26);
    assert_eq!(device.error.description(), "Terminals overheated");
    assert_eq!(value(device.yield_total), 12.34);
    assert_eq!(value(device.yield_today), 23.45);
    assert_eq!(device.max_power_today, 99);
    assert_eq!(value(device.yield_yesterday), 45.67);
    assert_eq!(device.max_power_yesterday, 98);
    assert_eq!(device.checksum, *frame.last().unwrap());
    assert_eq!(device.voltage, Scaled { raw: 12340, divisor: 1000 });
    assert_eq!(device.yield_today, Scaled { raw: 2345, divisor: 100 });
}

#[test]
fn a_frame_with_another_last_byte_is_a_checksum_mismatch() {
    let frame = valid_frame();
    let right = *frame.last().unwrap();
    for c in 0..=255u8 {
        let mut changed = frame.clone();
        let last = changed.len() - 1;
        changed[last] = c;
        let r = Mppt75_15::new_verified(&changed);
        if c == right {
            assert!(r.is_ok());
        } else {
            assert_eq!(r, Err(VeError::ChecksumMismatch));
        }
    }
}

#[test]
fn new_does_not_verify_the_checksum() {
    assert!(Mppt75_15::new(FULL_FRAME.as_bytes()).is_ok());
    assert_eq!(
        Mppt75_15::new_verified(FULL_FRAME.as_bytes()),
        Err(VeError::ChecksumMismatch)
    );
}

#[test]
fn an_unfinished_frame_is_malformed() {
    let cut = &FULL_FRAME.as_bytes()[..40];
    assert_eq!(Mppt75_15::new(cut), Err(VeError::MalformedFrame));
    assert_eq!(Mppt75_15::new(b""), Err(VeError::MalformedFrame));
    assert_eq!(Mppt75_15::new(b"\r\nPID\r\nChecksum\t0"), Err(VeError::MalformedFrame));
}

fn frame_without(key: &str) -> Vec<u8> {
    let mut out = String::new();
    for segment in FULL_FRAME.split("\r\n").skip(1) {
        if segment.split('\t').next() != Some(key) {
            out.push_str("\r\n");
            out.push_str(segment);
        }
    }
    out.into_bytes()
}

fn frame_with(key: &str, value: &str) -> Vec<u8> {
    let mut out = String::new();
    for segment in FULL_FRAME.split("\r\n").skip(1) {
        out.push_str("\r\n");
        if segment.split('\t').next() == Some(key) {
            out.push_str(key);
            out.push('\t');
            out.push_str(value);
        } else {
            out.push_str(segment);
        }
    }
    out.into_bytes()
}

#[test]
fn every_required_field_is_missed_by_name() {
    for key in [
        "PID", "FW", "SER#", "V", "I", "VPV", "PPV", "CS", "MPPT", "OR", "ERR", "H19", "H20",
        "H21", "H22", "H23", "HSDS",
    ] {
        assert_eq!(
            Mppt75_15::new(&frame_without(key)),
            Err(VeError::MissingField(key.to_string())),
        );
    }
}

#[test]
fn the_fields_of_the_load_output_may_be_absent() {
    let device = Mppt75_15::new(&frame_without("LOAD")).unwrap();
    assert_eq!(device.load, None);
    assert_eq!(device.load_current.map(value), Some(5.43));
    let device = Mppt75_15::new(&frame_without("IL")).unwrap();
    assert_eq!(device.load, Some(true));
    assert_eq!(device.load_current, None);
}

#[test]
fn every_numeric_field_is_refused_by_name_when_malformed() {
    for key in ["V", "I", "VPV", "PPV", "IL", "H19", "H20", "H21", "H22", "H23", "HSDS", "PID", "CS", "ERR"] {
        assert_eq!(
            Mppt75_15::new(&frame_with(key, "12x")),
            Err(VeError::MalformedValue(key.to_string())),
        );
    }
    assert_eq!(
        Mppt75_15::new(&frame_with("LOAD", "on")),
        Err(VeError::MalformedValue("LOAD".to_string())),
    );
}

#[test]
fn the_first_failing_field_is_reported() {
    let mut frame = String::from_utf8(frame_with("V", "volts")).unwrap();
    frame = frame.replace("\r\nCS\t0", "").replace("\r\nH19\t1234", "\r\nH19\tmany");
    assert_eq!(
        Mppt75_15::new(frame.as_bytes()),
        Err(VeError::MalformedValue("V".to_string())),
    );
    let frame = String::from_utf8(frame_without("CS")).unwrap().replace("H19\t1234", "H19\tmany");
    assert_eq!(
        Mppt75_15::new(frame.as_bytes()),
        Err(VeError::MissingField("CS".to_string())),
    );
}

#[test]
fn unknown_numbers_of_enumerations_are_kept_in_the_error() {
    assert_eq!(
        Mppt75_15::new(&frame_with("ERR", "27")),
        Err(VeError::UnknownEnumValue("ERR".to_string(), 27)),
    );
    assert_eq!(
        Mppt75_15::new(&frame_with("CS", "1")),
        Err(VeError::UnknownEnumValue("CS".to_string(), 1)),
    );
    assert_eq!(
        Mppt75_15::new(&frame_with("PID", "0xA048")),
        Err(VeError::UnknownEnumValue("PID".to_string(), 0xA048)),
    );
    assert_eq!(
        Mppt75_15::new(&frame_with("CS", "-1")),
        Err(VeError::UnknownEnumValue("CS".to_string(), -1)),
    );
}

#[test]
fn powers_are_integers_of_32_bits() {
    let device = Mppt75_15::new(&frame_with("PPV", "2147483647")).unwrap();
    assert_eq!(device.ppv, i32::MAX);
    let device = Mppt75_15::new(&frame_with("PPV", "-2147483648")).unwrap();
    assert_eq!(device.ppv, i32::MIN);
    assert_eq!(
        Mppt75_15::new(&frame_with("PPV", "2147483648")),
        Err(VeError::MalformedValue("PPV".to_string())),
    );
}

#[test]
fn the_day_number_keeps_its_low_16_bits() {
    let device = Mppt75_15::new(&frame_with("HSDS", "364")).unwrap();
    assert_eq!(device.hsds, 364);
    let device = Mppt75_15::new(&frame_with("HSDS", "65541")).unwrap();
    assert_eq!(device.hsds, 5);
    assert_eq!(
        Mppt75_15::new(&frame_with("HSDS", "4294967296")),
        Err(VeError::MalformedValue("HSDS".to_string())),
    );
    assert_eq!(
        Mppt75_15::new(&frame_with("HSDS", "-1")),
        Err(VeError::MalformedValue("HSDS".to_string())),
    );
}

#[test]
fn a_key_that_repeats_takes_its_last_value() {
    let mut frame = b"\r\nV\t1".to_vec();
    frame.extend_from_slice(FULL_FRAME.as_bytes());
    let device = Mppt75_15::new(&frame).unwrap();
    assert_eq!(device.voltage, Scaled::new(12340, 1000));
    let frame = FULL_FRAME.replace("\r\nHSDS\t0", "\r\nV\t-7\r\nHSDS\t0");
    let device = Mppt75_15::new(frame.as_bytes()).unwrap();
    assert_eq!(device.voltage, Scaled::new(-7, 1000));
    assert_eq!(value(device.voltage), -0.007);
}

#[test]
fn the_fields_without_a_checksum_miss_it() {
    let (mut fields, _) = parse(FULL_FRAME.as_bytes()).unwrap();
    fields.pop();
    assert_eq!(
        Mppt75_15::map_fields(&fields),
        Err(VeError::MissingField("Checksum".to_string())),
    );
}

#[test]
fn the_text_of_a_full_record() {
    let device = Mppt75_15::new(FULL_FRAME.as_bytes()).unwrap();
    let text = device.to_string();
    assert_eq!(
        text,
        "\r\nPID\t0xA042\r\nFW\t150\r\nSER#\tHQ1328Y6TF6\r\nV\t12340\r\nI\t1230\r\nVPV\t36630\r\nPPV\t99\r\nCS\t0\r\nMPPT\t0\r\nOR\t0x00000001\r\nERR\t26\r\nLOAD\tON\r\nIL\t5430\r\nH19\t1234\r\nH20\t2345\r\nH21\t99\r\nH22\t4567\r\nH23\t98\r\nHSDS\t0\r\nChecksum\t48"
    );
}

#[test]
fn the_text_of_a_record_with_negative_values() {
    let mut device = Mppt75_15::default();
    device.pid = VictronProductId::BMV700;
    device.current = Scaled::new(-1230, 1000);
    device.ppv = -5;
    device.load = Some(false);
    device.charge_state = ChargeState::Float;
    device.error = ErrorCode::UserSettingsInvalid;
    device.hsds = 364;
    device.checksum = 255;
    assert_eq!(
        device.to_string(),
        "\r\nPID\t0x203\r\nFW\t150\r\nSER#\tHQ1328Y6TF6\r\nV\t0\r\nI\t-1230\r\nVPV\t0\r\nPPV\t-5\r\nCS\t5\r\nMPPT\t0\r\nOR\t0x00000001\r\nERR\t119\r\nLOAD\tOFF\r\nH19\t0\r\nH20\t0\r\nH21\t0\r\nH22\t0\r\nH23\t0\r\nHSDS\t364\r\nChecksum\t255"
    );
}

#[test]
fn the_name_of_a_device_is_that_of_its_product() {
    let mut device = Mppt75_15::default();
    assert_eq!(device.get_name(), "BlueSolar MPPT 75/15");
    device.pid = VictronProductId::Phoenix_Inverter_48V_500VA_230V;
    assert_eq!(device.get_name(), "Phoenix Inverter 48V 500VA 230V");
    device.pid = VictronProductId::BlueSolar_MPPT_100_30_rev2;
    assert_eq!(device.get_name(), "BlueSolar MPPT 100/30 rev2");
}

#[test]
fn the_firmware_of_a_record_is_decoded() {
    let device = Mppt75_15::new(FULL_FRAME.as_bytes()).unwrap();
    let fwv = device.firmware_version().unwrap();
    assert_eq!(fwv.version_type, VersionType::FW);
    assert_eq!((fwv.version.major, fwv.version.minor, fwv.version.patch), (1, 50, 0));
    assert!(fwv.version.pre.is_empty());
    let mut odd = Mppt75_15::default();
    odd.firmware = "v1".to_string();
    assert_eq!(
        odd.firmware_version(),
        Err(VeError::FirmwareParseError("Failed parsing the input <v1>".to_string()))
    );
}
