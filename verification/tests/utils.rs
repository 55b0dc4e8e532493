use vedirect::constants::{ChargeState, ErrorCode, VictronProductId, WireEnum};
use vedirect::parser::Field;
use vedirect::text::{
    bytes_to_text, decimal_text, hex_text, parse_decimal, parse_hex, parse_integer, signed_text,
};
use vedirect::types::Scaled;
use vedirect::utils::{
    lookup, optional_bool, optional_scaled, required_byte, required_enum, required_integer,
    required_integer_within, required_scaled, required_string, same_bytes,
};
use vedirect::ve_error::VeError;

fn fields(pairs: &[(&str, &str)]) -> Vec<Field> {
    pairs
        .iter()
        .map(|(k, v)| Field { key: k.as_bytes().to_vec(), value: v.as_bytes().to_vec() })
        .collect()
}

fn missing(key: &str) -> VeError {
    VeError::MissingField(key.to_string())
}

fn malformed(key: &str) -> VeError {
    VeError::MalformedValue(key.to_string())
}

#[test]
fn the_last_field_of_a_key_counts() {
    let f = fields(&[("V", "1"), ("I", "2"), ("V", "3")]);
    assert_eq!(lookup(&f, "V"), Some(&b"3".to_vec()));
    assert_eq!(lookup(&f, "I"), Some(&b"2".to_vec()));
    assert_eq!(lookup(&f, "VPV"), None);
    assert_eq!(lookup(&f, ""), None);
    assert_eq!(lookup(&Vec::new(), "V"), None);
}

#[test]
fn keys_are_told_apart_to_the_byte() {
    let f = fields(&[("H2", "1"), ("H20", "2"), ("h20", "3")]);
    assert_eq!(required_integer(&f, "H20"), Ok(2));
    assert_eq!(required_integer(&f, "H2"), Ok(1));
    assert_eq!(required_integer(&f, "H"), Err(missing("H")));
    assert!(same_bytes(b"H20", b"H20"));
    assert!(!same_bytes(b"H20", b"H2"));
    assert!(!same_bytes(b"H20", b"H21"));
    assert!(same_bytes(b"", b""));
}

#[test]
fn a_text_is_required_and_never_malformed() {
    let f = fields(&[("SER#", "HQ1328Y6TF6"), ("OR", "0x00000001")]);
    assert_eq!(required_string(&f, "SER#"), Ok("HQ1328Y6TF6".to_string()));
    assert_eq!(required_string(&f, "OR"), Ok("0x00000001".to_string()));
    assert_eq!(required_string(&f, "FW"), Err(missing("FW")));
    let raw = vec![Field { key: b"K".to_vec(), value: vec![0x41, 0xd8, 0x00] }];
    assert_eq!(required_string(&raw, "K"), Ok("A\u{d8}\u{0}".to_string()));
}

#[test]
fn integers_are_decimal_or_hexadecimal() {
    let f = fields(&[
        ("A", "12340"),
        ("B", "-1230"),
        ("C", "+7"),
        ("D", "0xA042"),
        ("E", "0x00000001"),
        ("F", "0xff"),
        ("G", "007"),
        ("H", "0"),
    ]);
    assert_eq!(required_integer(&f, "A"), Ok(12340));
    assert_eq!(required_integer(&f, "B"), Ok(-1230));
    assert_eq!(required_integer(&f, "C"), Ok(7));
    assert_eq!(required_integer(&f, "D"), Ok(0xA042));
    assert_eq!(required_integer(&f, "E"), Ok(1));
    assert_eq!(required_integer(&f, "F"), Ok(255));
    assert_eq!(required_integer(&f, "G"), Ok(7));
    assert_eq!(required_integer(&f, "H"), Ok(0));
    assert_eq!(required_integer(&f, "Z"), Err(missing("Z")));
}

#[test]
fn what_is_no_integer_is_malformed() {
    for text in ["", "-", "+", "0x", "12a", "1.5", " 1", "1 ", "A042", "0xG", "--1", "-0x1", "1e3", "ON"] {
        let f = fields(&[("K", text)]);
        assert_eq!(required_integer(&f, "K"), Err(malformed("K")), "{:?}", text);
    }
}

#[test]
fn integers_have_64_bits() {
    assert_eq!(parse_integer(b"9223372036854775807"), Some(i64::MAX));
    assert_eq!(parse_integer(b"9223372036854775808"), None);
    assert_eq!(parse_integer(b"-9223372036854775808"), Some(i64::MIN));
    assert_eq!(parse_integer(b"-9223372036854775809"), None);
    assert_eq!(parse_integer(b"0x7fffffffffffffff"), Some(i64::MAX));
    assert_eq!(parse_integer(b"0x8000000000000000"), None);
    assert_eq!(parse_integer(b"00000000000000000000000000000012"), Some(12));
    assert_eq!(parse_integer(b"99999999999999999999999999"), None);
    assert_eq!(parse_decimal(b"18446744073709551615"), Some(u64::MAX));
    assert_eq!(parse_decimal(b"18446744073709551616"), None);
    assert_eq!(parse_decimal(b""), None);
    assert_eq!(parse_decimal(b"-1"), None);
    assert_eq!(parse_hex(b"FFFFFFFFFFFFFFFF"), Some(u64::MAX));
    assert_eq!(parse_hex(b"10000000000000000"), None);
    assert_eq!(parse_hex(b"aB"), Some(0xab));
    assert_eq!(parse_hex(b""), None);
    assert_eq!(parse_hex(b"0x1"), None);
}

#[test]
fn an_integer_outside_its_range_is_malformed() {
    let f = fields(&[("K", "100"), ("L", "-1")]);
    assert_eq!(required_integer_within(&f, "K", 0, 100), Ok(100));
    assert_eq!(required_integer_within(&f, "K", 100, 100), Ok(100));
    assert_eq!(required_integer_within(&f, "K", 0, 99), Err(malformed("K")));
    assert_eq!(required_integer_within(&f, "K", 101, 200), Err(malformed("K")));
    assert_eq!(required_integer_within(&f, "L", 0, 10), Err(malformed("L")));
    assert_eq!(required_integer_within(&f, "M", 0, 10), Err(missing("M")));
}

#[test]
fn a_quantity_keeps_the_wire_number_and_the_divisor() {
    let f = fields(&[("V", "12340"), ("H19", "1234"), ("I", "-1230"), ("X", "volts")]);
    assert_eq!(required_scaled(&f, "V", 1000), Ok(Scaled { raw: 12340, divisor: 1000 }));
    assert_eq!(required_scaled(&f, "H19", 100), Ok(Scaled { raw: 1234, divisor: 100 }));
    assert_eq!(required_scaled(&f, "I", 1000), Ok(Scaled::new(-1230, 1000)));
    assert_eq!(required_scaled(&f, "VPV", 1000), Err(missing("VPV")));
    assert_eq!(required_scaled(&f, "X", 1000), Err(malformed("X")));
    let q = required_scaled(&f, "V", 1000).unwrap();
    assert_eq!(q.raw as f32 / q.divisor as f32, 12.34);
    let q = required_scaled(&f, "H19", 100).unwrap();
    assert_eq!(q.raw as f32 / q.divisor as f32, 12.34);
}

#[test]
fn an_optional_quantity_may_be_absent_but_not_malformed() {
    let f = fields(&[("IL", "5430"), ("X", "amps")]);
    assert_eq!(optional_scaled(&f, "IL", 1000), Ok(Some(Scaled { raw: 5430, divisor: 1000 })));
    assert_eq!(optional_scaled(&f, "I", 1000), Ok(None));
    assert_eq!(optional_scaled(&f, "X", 1000), Err(malformed("X")));
}

#[test]
fn a_switch_is_on_or_off_or_absent() {
    let f = fields(&[("A", "ON"), ("B", "OFF"), ("C", "on"), ("D", "1"), ("E", ""), ("F", "ONN"), ("G", "OF")]);
    assert_eq!(optional_bool(&f, "A"), Ok(Some(true)));
    assert_eq!(optional_bool(&f, "B"), Ok(Some(false)));
    assert_eq!(optional_bool(&f, "LOAD"), Ok(None));
    for key in ["C", "D", "E", "F", "G"] {
        assert_eq!(optional_bool(&f, key), Err(malformed(key)));
    }
}

#[test]
fn a_byte_is_a_value_of_length_one() {
    let f = vec![
        Field { key: b"Checksum".to_vec(), value: vec![0xd8] },
        Field { key: b"Two".to_vec(), value: vec![1, 2] },
        Field { key: b"None".to_vec(), value: vec![] },
    ];
    assert_eq!(required_byte(&f, "Checksum"), Ok(0xd8));
    assert_eq!(required_byte(&f, "Two"), Err(malformed("Two")));
    assert_eq!(required_byte(&f, "None"), Err(malformed("None")));
    assert_eq!(required_byte(&f, "Other"), Err(missing("Other")));
}

#[test]
fn an_enumeration_is_read_from_its_number() {
    let f = fields(&[("PID", "0xA042"), ("CS", "5"), ("ERR", "26"), ("BAD", "x"), ("UNK", "1")]);
    assert_eq!(required_enum::<VictronProductId>(&f, "PID"), Ok(VictronProductId::BlueSolar_MPPT_75_15));
    assert_eq!(required_enum::<ChargeState>(&f, "CS"), Ok(ChargeState::Float));
    assert_eq!(required_enum::<ErrorCode>(&f, "ERR"), Ok(ErrorCode::TerminalsOverheated));
    assert_eq!(required_enum::<ErrorCode>(&f, "ERRS"), Err(missing("ERRS")));
    assert_eq!(required_enum::<ErrorCode>(&f, "BAD"), Err(malformed("BAD")));
    assert_eq!(
        required_enum::<ChargeState>(&f, "UNK"),
        Err(VeError::UnknownEnumValue("UNK".to_string(), 1))
    );
    assert_eq!(
        required_enum::<ChargeState>(&f, "ERR"),
        Err(VeError::UnknownEnumValue("ERR".to_string(), 26))
    );
}

#[test]
fn every_member_is_found_again_from_its_number() {
    let products = [
        (VictronProductId::BMV700, 0x203, "BMV-700"),
        (VictronProductId::BMV702, 0x204, "BMV-702"),
        (VictronProductId::BMV700H, 0x205, "BMV-700H"),
        (VictronProductId::BlueSolar_MPPT_70_15, 0x300, "BlueSolar MPPT 70/15"),
        (VictronProductId::BlueSolar_MPPT_75_50, 0xA040, "BlueSolar MPPT 75/50"),
        (VictronProductId::BlueSolar_MPPT_150_35_rev1, 0xA041, "BlueSolar MPPT 150/35 rev1"),
        (VictronProductId::BlueSolar_MPPT_75_15, 0xA042, "BlueSolar MPPT 75/15"),
        (VictronProductId::BlueSolar_MPPT_100_15, 0xA043, "BlueSolar MPPT 100/15"),
        (VictronProductId::BlueSolar_MPPT_100_30_rev1, 0xA044, "BlueSolar MPPT 100/30 rev1"),
        (VictronProductId::BlueSolar_MPPT_100_50_rev1, 0xA045, "BlueSolar MPPT 100/50 rev1"),
        (VictronProductId::BlueSolar_MPPT_150_70, 0xA046, "BlueSolar MPPT 150/70"),
        (VictronProductId::BlueSolar_MPPT_150_100, 0xA047, "BlueSolar MPPT 150/100"),
        (VictronProductId::BlueSolar_MPPT_100_50_rev2, 0xA049, "BlueSolar MPPT 100/50 rev2"),
        (VictronProductId::BlueSolar_MPPT_100_30_rev2, 0xA04A, "BlueSolar MPPT 100/30 rev2"),
        (VictronProductId::BlueSolar_MPPT_150_35_rev2, 0xA04B, "BlueSolar MPPT 150/35 rev2"),
        (VictronProductId::BlueSolar_MPPT_75_10, 0xA04C, "BlueSolar MPPT 75/10"),
        (VictronProductId::BlueSolar_MPPT_150_45, 0xA04D, "BlueSolar MPPT 150/45"),
        (VictronProductId::BlueSolar_MPPT_150_60, 0xA04E, "BlueSolar MPPT 150/60"),
        (VictronProductId::BlueSolar_MPPT_150_85, 0xA04F, "BlueSolar MPPT 150/85"),
        (VictronProductId::SmartSolar_MPPT_250_100, 0xA050, "SmartSolar MPPT 250/100"),
        (VictronProductId::SmartSolar_MPPT_150_100, 0xA051, "SmartSolar MPPT 150/100"),
        (VictronProductId::Phoenix_Inverter_12V_250VA_230V, 0xA201, "Phoenix Inverter 12V 250VA 230V"),
        (VictronProductId::Phoenix_Inverter_24V_250VA_230V, 0xA202, "Phoenix Inverter 24V 250VA 230V"),
        (VictronProductId::Phoenix_Inverter_48V_250VA_230V, 0xA204, "Phoenix Inverter 48V 250VA 230V"),
        (VictronProductId::Phoenix_Inverter_12V_375VA_230V, 0xA211, "Phoenix Inverter 12V 375VA 230V"),
        (VictronProductId::Phoenix_Inverter_24V_375VA_230V, 0xA212, "Phoenix Inverter 24V 375VA 230V"),
        (VictronProductId::Phoenix_Inverter_48V_375VA_230V, 0xA214, "Phoenix Inverter 48V 375VA 230V"),
        (VictronProductId::Phoenix_Inverter_12V_500VA_230V, 0xA221, "Phoenix Inverter 12V 500VA 230V"),
        (VictronProductId::Phoenix_Inverter_24V_500VA_230V, 0xA222, "Phoenix Inverter 24V 500VA 230V"),
        (VictronProductId::Phoenix_Inverter_48V_500VA_230V, 0xA224, "Phoenix Inverter 48V 500VA 230V"),
    ];
    for (product, code, name) in products {
        assert_eq!(product.code(), code);
        assert_eq!(VictronProductId::from_code(code as i64), Some(product));
        assert_eq!(product.name(), name);
    }
    let known: Vec<i64> = products.iter().map(|p| p.1 as i64).collect();
    for code in -2..0x1_0000i64 {
        assert_eq!(VictronProductId::from_code(code).is_some(), known.contains(&code));
    }
    let states = [
        (ChargeState::Off, 0),
        (ChargeState::Fault, 2),
        (ChargeState::Bulk, 3),
        (ChargeState::Absorption, 4),
        (ChargeState::Float, 5),
    ];
    for (state, code) in states {
        assert_eq!(state.code(), code);
        assert_eq!(ChargeState::from_code(code as i64), Some(state));
    }
    for code in [-1i64, 1, 6, 9, 245, i64::MAX, i64::MIN] {
        assert_eq!(ChargeState::from_code(code), None);
    }
    let errors = [
        (ErrorCode::NoError, 0),
        (ErrorCode::BatteryVoltageTooHigh, 2),
        (ErrorCode::ChargerTemperatureTooHigh, 17),
        (ErrorCode::ChargerOverCurrent, 18),
        (ErrorCode::ChargerCurrentReversed, 19),
        (ErrorCode::BulkTimeLimitExceeded, 20),
        (ErrorCode::CurrentSensorIssue, 21),
        (ErrorCode::TerminalsOverheated, 26),
        (ErrorCode::SolarInputVoltageTooHigh, 33),
        (ErrorCode::SolarInputCurrentTooHigh, 34),
        (ErrorCode::InputShutdown, 38),
        (ErrorCode::FactoryCalibrationDataLost, 116),
        (ErrorCode::InvalidFirmware, 117),
        (ErrorCode::UserSettingsInvalid, 119),
    ];
    for (error, code) in errors {
        assert_eq!(error.code(), code);
        assert_eq!(ErrorCode::from_code(code as i64), Some(error));
    }
    for code in [-1i64, 1, 3, 16, 22, 27, 35, 118, 120, 256] {
        assert_eq!(ErrorCode::from_code(code), None);
    }
}

#[test]
fn numbers_are_written_as_they_are_read() {
    assert_eq!(decimal_text(0), "0");
    assert_eq!(decimal_text(9), "9");
    assert_eq!(decimal_text(10), "10");
    assert_eq!(decimal_text(12340), "12340");
    assert_eq!(decimal_text(u64::MAX), "18446744073709551615");
    assert_eq!(signed_text(0), "0");
    assert_eq!(signed_text(-1), "-1");
    assert_eq!(signed_text(-1230), "-1230");
    assert_eq!(signed_text(i64::MAX), "9223372036854775807");
    assert_eq!(signed_text(i64::MIN), "-9223372036854775808");
    assert_eq!(hex_text(0), "0");
    assert_eq!(hex_text(0xA042), "A042");
    assert_eq!(hex_text(0x203), "203");
    assert_eq!(hex_text(u32::MAX), "FFFFFFFF");
    for n in [0i64, 5, -5, 1234567, -7654321, i64::MAX, i64::MIN] {
        assert_eq!(parse_integer(signed_text(n).as_bytes()), Some(n));
    }
    for n in [0u32, 15, 16, 0xA042, u32::MAX] {
        assert_eq!(parse_hex(hex_text(n).as_bytes()), Some(n as u64));
    }
}

#[test]
fn bytes_become_text_byte_by_byte() {
    assert_eq!(bytes_to_text(b""), "");
    assert_eq!(bytes_to_text(b"HQ1328Y6TF6"), "HQ1328Y6TF6");
    assert_eq!(bytes_to_text(&[0x7f, 0x80, 0xff]), "\u{7f}\u{80}\u{ff}");
}
