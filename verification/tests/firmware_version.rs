use vedirect::firmware_version::{
    build_version_text, FirmwareVersion, Identifier, Version, VersionType,
};
use vedirect::ve_error::VeError;

#[test]
fn test_fw_150() {
    let fwv = FirmwareVersion::from_str("150").unwrap();

    assert_eq!(fwv.version_type, VersionType::FW);
    assert_eq!(
        fwv.version,
        Version {
            major: 1,
            minor: 50,
            patch: 0,
            pre: vec!(),
            build: vec!(),
        }
    );
}

#[test]
fn test_fw_c208() {
    let fwv = FirmwareVersion::from_str("C208").unwrap();

    assert_eq!(fwv.version_type, VersionType::FW);
    assert_eq!(
        fwv.version,
        Version {
            major: 2,
            minor: 8,
            patch: 0,
            pre: vec![Identifier::AlphaNumeric("C".into())],
            build: vec!(),
        }
    );
}

#[test]
fn test_fw_0208ff() {
    let fwv = FirmwareVersion::from_str("0208FF").unwrap();

    assert_eq!(fwv.version_type, VersionType::FWE);
    assert_eq!(
        fwv.version,
        Version {
            major: 2,
            minor: 8,
            patch: 0,
            pre: vec!(),
            build: vec!(),
        }
    );
}

#[test]
fn test_fw_208ff() {
    let fwv = FirmwareVersion::from_str("208FF").unwrap();

    assert_eq!(fwv.version_type, VersionType::FWE);
    assert_eq!(
        fwv.version,
        Version {
            major: 2,
            minor: 8,
            patch: 0,
            pre: vec!(),
            build: vec!(),
        }
    );
}

#[test]
fn test_fw_020801() {
    let fwv = FirmwareVersion::from_str("020801").unwrap();

    assert_eq!(fwv.version_type, VersionType::FWE);
    assert_eq!(
        fwv.version,
        Version {
            major: 2,
            minor: 8,
            patch: 0,
            pre: vec![Identifier::AlphaNumeric("beta-01".into())],
            build: vec!(),
        }
    );
}

#[test]
#[should_panic(expected = "Failed parsing the input <junk>")]
fn test_fw_junk() {
    let fwv = FirmwareVersion::from_str("junk").unwrap();

    assert_eq!(fwv.version_type, VersionType::FWE);
    assert_eq!(
        fwv.version,
        Version {
            major: 2,
            minor: 8,
            patch: 0,
            pre: vec![Identifier::AlphaNumeric("beta-01".into())],
            build: vec!(),
        }
    );
}

fn failure(input: &str) -> VeError {
    VeError::FirmwareParseError(format!("Failed parsing the input <{}>", input))
}

#[test]
fn both_long_forms_agree() {
    let padded = FirmwareVersion::from_str("0208FF").unwrap();
    let bare = FirmwareVersion::from_str("208FF").unwrap();
    assert_eq!(padded, bare);
}

#[test]
fn junk_is_a_parse_error_that_quotes_the_input() {
    assert_eq!(FirmwareVersion::from_str("junk"), Err(failure("junk")));
}

#[test]
fn lengths_outside_three_to_six_are_refused() {
    for input in ["", "1", "12", "1234567", "02080112"] {
        assert_eq!(FirmwareVersion::from_str(input), Err(failure(input)));
    }
}

#[test]
fn a_long_form_without_its_pattern_is_refused() {
    for input in ["1234G", "0208GG", "ABCDEF", "12 45"] {
        assert_eq!(FirmwareVersion::from_str(input), Err(failure(input)));
    }
}

#[test]
fn every_release_candidate_letter_is_a_prerelease() {
    for letter in ["A", "B", "C", "D", "E", "F"] {
        let fwv = FirmwareVersion::from_str(&format!("{}150", letter)).unwrap();
        assert_eq!(fwv.version_type, VersionType::FW);
        assert_eq!(fwv.version.major, 1);
        assert_eq!(fwv.version.minor, 50);
        assert_eq!(fwv.version.patch, 0);
        assert_eq!(fwv.version.pre, vec![Identifier::AlphaNumeric(letter.into())]);
    }
}

#[test]
fn a_two_digit_major_is_read_whole() {
    let fwv = FirmwareVersion::from_str("1208FF").unwrap();
    assert_eq!(fwv.version.major, 12);
    assert_eq!(fwv.version.minor, 8);
    assert!(fwv.version.pre.is_empty());
    let beta = FirmwareVersion::from_str("1234AB").unwrap();
    assert_eq!(beta.version.major, 12);
    assert_eq!(beta.version.minor, 34);
    assert_eq!(beta.version.pre, vec![Identifier::AlphaNumeric("beta-AB".into())]);
}

#[test]
fn a_text_that_the_pattern_does_not_cover_is_refused() {
    for input in ["x150", "1508", "150x", "15C0", "c208", "G208", "C20", "A0208F", "0208G", "208FFF", "20 8FF"] {
        assert_eq!(FirmwareVersion::from_str(input), Err(failure(input)), "{:?}", input);
    }
}

#[test]
fn a_text_of_the_form_of_its_length_is_decoded() {
    for input in ["150", "000", "999", "A000", "F999", "12345", "00000", "9999AF", "01020F"] {
        assert!(FirmwareVersion::from_str(input).is_ok(), "{:?}", input);
    }
    let fwv = FirmwareVersion::from_str("12345").unwrap();
    assert_eq!(fwv.version_type, VersionType::FWE);
    assert_eq!((fwv.version.major, fwv.version.minor, fwv.version.patch), (1, 23, 0));
    assert_eq!(fwv.version.pre, vec![Identifier::AlphaNumeric("beta-45".into())]);
}

#[test]
fn captures_of_a_part_of_the_text_are_refused() {
    let part = groups([Some("150"), None, Some("1"), Some("50")]);
    assert_eq!(
        FirmwareVersion::from_captures(VersionType::FW, "1508", Some(part.clone())),
        Err(failure("1508"))
    );
    assert_eq!(
        FirmwareVersion::from_captures(VersionType::FW, "x150", Some(part.clone())),
        Err(failure("x150"))
    );
    assert!(FirmwareVersion::from_captures(VersionType::FW, "150", Some(part)).is_ok());
    let no_whole = groups([None, Some("C"), Some("2"), Some("08")]);
    assert_eq!(
        FirmwareVersion::from_captures(VersionType::FW, "C208", Some(no_whole)),
        Err(failure("C208"))
    );
}

#[test]
fn digits_of_other_scripts_are_no_numbers() {
    // Three Arabic-Indic digits match the pattern's digit classes but write no number here.
    let input = "\u{661}\u{662}\u{663}";
    assert_eq!(FirmwareVersion::from_str(input), Err(failure(input)));
}

fn groups(texts: [Option<&str>; 4]) -> Vec<Option<String>> {
    texts.iter().map(|t| t.map(String::from)).collect()
}

#[test]
fn version_text_of_the_short_form() {
    let plain = groups([Some("150"), None, Some("1"), Some("50")]);
    assert_eq!(build_version_text(VersionType::FW, &plain), Some("1.50.0".to_string()));
    let candidate = groups([Some("C208"), Some("C"), Some("2"), Some("08")]);
    assert_eq!(build_version_text(VersionType::FW, &candidate), Some("2.8.0-C".to_string()));
}

#[test]
fn version_text_of_the_long_form() {
    let release = groups([Some("0208FF"), Some("02"), Some("08"), Some("FF")]);
    assert_eq!(build_version_text(VersionType::FWE, &release), Some("2.8.0".to_string()));
    let beta = groups([Some("020801"), Some("02"), Some("08"), Some("01")]);
    assert_eq!(build_version_text(VersionType::FWE, &beta), Some("2.8.0-beta-01".to_string()));
}

#[test]
fn version_text_needs_both_numbers() {
    let no_minor = groups([Some("1"), None, Some("1"), None]);
    assert_eq!(build_version_text(VersionType::FW, &no_minor), None);
    let letters = groups([Some("ab"), Some("a"), Some("b"), Some("c")]);
    assert_eq!(build_version_text(VersionType::FWE, &letters), None);
    assert_eq!(build_version_text(VersionType::FW, &Vec::new()), None);
    let too_large = groups([None, Some("99999999999999999999"), Some("1"), Some("FF")]);
    assert_eq!(build_version_text(VersionType::FWE, &too_large), None);
}

#[test]
fn from_captures_without_a_match_is_refused() {
    assert_eq!(FirmwareVersion::from_captures(VersionType::FW, "abc", None), Err(failure("abc")));
}

#[test]
fn from_captures_reads_the_groups() {
    let captured = groups([Some("C208"), Some("C"), Some("2"), Some("08")]);
    let fwv = FirmwareVersion::from_captures(VersionType::FW, "C208", Some(captured)).unwrap();
    assert_eq!(fwv.version.major, 2);
    assert_eq!(fwv.version.minor, 8);
    assert_eq!(fwv.version.pre, vec![Identifier::AlphaNumeric("C".into())]);
}

#[test]
fn from_parsed_keeps_the_version_and_the_encoding() {
    let version = Version { major: 3, minor: 7, patch: 0, pre: vec![], build: vec![] };
    let fwv = FirmwareVersion::from_parsed(VersionType::FWE, "0307FF", Some(version.clone()));
    assert_eq!(fwv, Ok(FirmwareVersion { version, version_type: VersionType::FWE }));
    assert_eq!(
        FirmwareVersion::from_parsed(VersionType::FWE, "0307FF", None),
        Err(failure("0307FF"))
    );
}
