//! Firmware versions, as the fields `FW` and `FWE` report them.
//!
//! `FW` holds three or four characters: an optional letter that marks a
//! release candidate, one digit for the major and two for the minor
//! version, so `208` is version 2.08 and `C208` is release candidate C of
//! it. `FWE` holds five or six characters: one or two digits for the
//! major and two for the minor version, then two characters that are `FF`
//! for an official release and number a beta otherwise, so `0208FF` and
//! `208FF` are version 2.08 and `020801` is 2.08-beta-01.
//!
//! Which of the two encodings a text is in is told by its length alone.
//! The text is matched with the `regex` crate, and the match has to cover
//! the whole text: `1508` and `x150` are no firmware versions. The
//! version is assembled by the `semver` crate.

use crate::text::{ascii_bytes, decimal_digits, decimal_text, decimal_value, parse_decimal};
use crate::ve_error::{ErrorModel, VeError};
use vstd::prelude::*;
use vstd::utf8::is_ascii_chars;

verus! {

/// The two encodings of a firmware version.
#[derive(Debug, Clone, Copy, PartialEq, Eq, Structural)]
pub enum VersionType {
    /// Coded on 3..4 characters: `<Pre:1?> <Major:1> <Minor:2>`
    FW,
    /// Coded on 5..6 characters: `<Major:1..2> <Minor:2> <Pre:2>`
    FWE,
}

/// One identifier of a version's pre-release or build part.
#[derive(Debug, Clone, PartialEq, Eq)]
pub enum Identifier {
    /// An identifier that is a number.
    Numeric(u64),
    /// An identifier with letters and numbers.
    AlphaNumeric(String),
}

/// The mathematical value of an [`Identifier`].
pub enum IdentifierModel {
    Numeric(u64),
    AlphaNumeric(Seq<char>),
}

impl DeepView for Identifier {
    type V = IdentifierModel;

    open spec fn deep_view(&self) -> IdentifierModel {
        match self {
            Identifier::Numeric(n) => IdentifierModel::Numeric(*n),
            Identifier::AlphaNumeric(s) => IdentifierModel::AlphaNumeric(s@),
        }
    }
}

/// A semantic version: what `semver` reads out of a version text, held as
/// plain values.
#[derive(Debug, Clone, PartialEq, Eq)]
pub struct Version {
    pub major: u64,
    pub minor: u64,
    pub patch: u64,
    pub pre: Vec<Identifier>,
    pub build: Vec<Identifier>,
}

/// The mathematical value of a [`Version`].
pub struct VersionModel {
    pub major: u64,
    pub minor: u64,
    pub patch: u64,
    pub pre: Seq<IdentifierModel>,
    pub build: Seq<IdentifierModel>,
}

impl DeepView for Version {
    type V = VersionModel;

    open spec fn deep_view(&self) -> VersionModel {
        VersionModel {
            major: self.major,
            minor: self.minor,
            patch: self.patch,
            pre: self.pre.deep_view(),
            build: self.build.deep_view(),
        }
    }
}

/// A firmware version, and the encoding it was read from.
#[derive(Debug, Clone, PartialEq, Eq)]
pub struct FirmwareVersion {
    pub version: Version,
    pub version_type: VersionType,
}

/// The mathematical value of a [`FirmwareVersion`].
pub struct FirmwareVersionModel {
    pub version: VersionModel,
    pub version_type: VersionType,
}

impl DeepView for FirmwareVersion {
    type V = FirmwareVersionModel;

    open spec fn deep_view(&self) -> FirmwareVersionModel {
        FirmwareVersionModel {
            version: self.version.deep_view(),
            version_type: self.version_type,
        }
    }
}

/// The mathematical value of what decoding a firmware version returns.
pub open spec fn version_outcome(r: Result<FirmwareVersion, VeError>) -> Result<
    FirmwareVersionModel,
    ErrorModel,
> {
    match r {
        Ok(v) => Ok(v.deep_view()),
        Err(e) => Err(e@),
    }
}

/// What the `regex` crate captures when it searches `text` for `pattern`:
/// `None` where the pattern is no regular expression or matches nowhere
/// in the text, else the text of every group of the leftmost match, the
/// whole match first and then the groups in the order of their opening
/// brackets, with `None` for a group that took no part in the match.
pub uninterp spec fn regex_captures(pattern: Seq<char>, text: Seq<char>) -> Option<
    Seq<Option<Seq<char>>>,
>;

/// What the `semver` crate reads out of `text`: `None` where the text is
/// no semantic version.
pub uninterp spec fn semver_parse(text: Seq<char>) -> Option<VersionModel>;

/// Compiles `pattern` with `regex::Regex::new` and searches `text` with
/// `Regex::captures`. The result is a function of the two texts; the
/// contract gives it its name and claims nothing else of it.
#[verifier::external_body]
fn captures(pattern: &str, text: &str) -> (groups: Option<Vec<Option<String>>>)
    ensures
        groups.deep_view() == regex_captures(pattern@, text@),
{
    match regex::Regex::new(pattern) {
        Ok(re) => re.captures(text).map(
            |caps| caps.iter().map(|m| m.map(|m| m.as_str().to_string())).collect(),
        ),
        Err(_) => None,
    }
}

/// Reads `text` with `semver::Version::parse` and copies the fields of
/// the version it returns. The result is a function of the text; the
/// contract gives it its name and claims nothing else of it.
#[verifier::external_body]
fn parse_semver(text: &str) -> (version: Option<Version>)
    ensures
        version.deep_view() == semver_parse(text@),
{
    let copy = |id: semver::Identifier| match id {
        semver::Identifier::Numeric(n) => Identifier::Numeric(n),
        semver::Identifier::AlphaNumeric(s) => Identifier::AlphaNumeric(s),
    };
    match semver::Version::parse(text) {
        Ok(v) => Some(Version {
            major: v.major,
            minor: v.minor,
            patch: v.patch,
            pre: v.pre.into_iter().map(copy).collect(),
            build: v.build.into_iter().map(copy).collect(),
        }),
        Err(_) => None,
    }
}

/// The encoding that a text of `len` characters is in, if any.
pub open spec fn version_type_for(len: nat) -> Option<VersionType> {
    if 3 <= len <= 4 {
        Some(VersionType::FW)
    } else if 5 <= len <= 6 {
        Some(VersionType::FWE)
    } else {
        None
    }
}

/// The regular expression of an encoding, from the start of the text to
/// its end. Both have three groups.
pub open spec fn pattern_of(kind: VersionType) -> Seq<char> {
    match kind {
        VersionType::FW => "^(?P<Pre>[A-F])?(?P<Major>\\d)(?P<Minor>\\d{2})$"@,
        VersionType::FWE => "^(?P<Major>\\d{1,2})(?P<Minor>\\d{2})(?P<Pre>[0-9A-F]{2})$"@,
    }
}

/// The regular expression of an encoding.
pub fn pattern(kind: VersionType) -> (p: &'static str)
    ensures
        p@ == pattern_of(kind),
{
    match kind {
        VersionType::FW => "^(?P<Pre>[A-F])?(?P<Major>\\d)(?P<Minor>\\d{2})$",
        VersionType::FWE => "^(?P<Major>\\d{1,2})(?P<Minor>\\d{2})(?P<Pre>[0-9A-F]{2})$",
    }
}

/// The error for a text that is no firmware version.
pub open spec fn parse_failure(input: Seq<char>) -> ErrorModel {
    ErrorModel::FirmwareParseError("Failed parsing the input <"@ + input + ">"@)
}

/// The text of group `i`, empty where there is no such group or it took
/// no part in the match.
pub open spec fn group_text(groups: Seq<Option<Seq<char>>>, i: int) -> Seq<char> {
    if 0 <= i < groups.len() {
        match groups[i] {
            Some(text) => text,
            None => Seq::empty(),
        }
    } else {
        Seq::empty()
    }
}

/// The number that a group of digits writes, if it is one and fits.
pub open spec fn number_of(text: Seq<char>) -> Option<u64> {
    if is_ascii_chars(text) {
        match decimal_value(ascii_bytes(text)) {
            Some(n) => if n <= u64::MAX {
                Some(n as u64)
            } else {
                None
            },
            None => None,
        }
    } else {
        None
    }
}

/// What follows the three numbers in the version text: nothing for a
/// release, else a hyphen and the pre-release tag. In the short encoding
/// the tag is the letter itself; in the long one `FF` marks a release and
/// anything else numbers a beta.
pub open spec fn prerelease_suffix(kind: VersionType, pre: Seq<char>) -> Seq<char> {
    match kind {
        VersionType::FW => if pre.len() == 0 {
            Seq::empty()
        } else {
            "-"@ + pre
        },
        VersionType::FWE => if pre == "FF"@ {
            Seq::empty()
        } else {
            "-beta-"@ + pre
        },
    }
}

/// Where each encoding keeps its parts: the groups of the major version,
/// of the minor version and of the pre-release tag.
pub open spec fn group_places(kind: VersionType) -> (int, int, int) {
    match kind {
        VersionType::FW => (2, 3, 1),
        VersionType::FWE => (1, 2, 3),
    }
}

/// The semantic-version text for the groups of a match: major, minor and
/// a patch of zero, then the pre-release suffix. `None` where the major
/// or the minor group is no number.
pub open spec fn version_text(kind: VersionType, groups: Seq<Option<Seq<char>>>) -> Option<
    Seq<char>,
> {
    let (major_at, minor_at, pre_at) = group_places(kind);
    match (number_of(group_text(groups, major_at)), number_of(group_text(groups, minor_at))) {
        (Some(major), Some(minor)) => Some(
            decimal_digits(major as nat) + "."@ + decimal_digits(minor as nat) + ".0"@
                + prerelease_suffix(kind, group_text(groups, pre_at)),
        ),
        _ => None,
    }
}

/// What decoding returns once `semver` has read the version text.
pub open spec fn version_from_parsed(
    kind: VersionType,
    input: Seq<char>,
    parsed: Option<VersionModel>,
) -> Result<FirmwareVersionModel, ErrorModel> {
    match parsed {
        Some(version) => Ok(FirmwareVersionModel { version, version_type: kind }),
        None => Err(parse_failure(input)),
    }
}

/// Whether the match covers the whole input: its first group, which is
/// the text of the match itself, is the input.
pub open spec fn covers(groups: Seq<Option<Seq<char>>>, input: Seq<char>) -> bool {
    group_text(groups, 0) == input
}

/// What decoding returns once `regex` has searched the input. A match
/// that leaves any of the input out is no match: the input has the form
/// of its encoding from its first character to its last, or it is
/// refused.
pub open spec fn version_from_captures(
    kind: VersionType,
    input: Seq<char>,
    captured: Option<Seq<Option<Seq<char>>>>,
) -> Result<FirmwareVersionModel, ErrorModel> {
    match captured {
        Some(groups) => if covers(groups, input) {
            match version_text(kind, groups) {
                Some(text) => version_from_parsed(kind, input, semver_parse(text)),
                None => Err(parse_failure(input)),
            }
        } else {
            Err(parse_failure(input))
        },
        None => Err(parse_failure(input)),
    }
}

/// What decoding a firmware version returns.
pub open spec fn decoded_version(input: Seq<char>) -> Result<FirmwareVersionModel, ErrorModel> {
    match version_type_for(input.len()) {
        Some(kind) => version_from_captures(
            kind,
            input,
            regex_captures(pattern_of(kind), input),
        ),
        None => Err(parse_failure(input)),
    }
}

/// The encoding is told by the length alone: a text of fewer than three
/// or more than six characters is no firmware version, and a version
/// that was decoded has the encoding of its text's length.
pub proof fn lemma_encoding_by_length(input: Seq<char>)
    ensures
        !(3 <= input.len() <= 6) ==> decoded_version(input) == Err::<
            FirmwareVersionModel,
            ErrorModel,
        >(parse_failure(input)),
        decoded_version(input) matches Ok(v) ==> version_type_for(input.len()) == Some(
            v.version_type,
        ),
{
}

/// The whole text counts: from captures that leave any of the input out
/// nothing is decoded, whatever their groups hold, and a version is
/// decoded only where the pattern of the input's encoding was found and
/// its match is the input.
pub proof fn lemma_match_covers_input(
    kind: VersionType,
    input: Seq<char>,
    groups: Seq<Option<Seq<char>>>,
)
    ensures
        !covers(groups, input) ==> version_from_captures(kind, input, Some(groups)) == Err::<
            FirmwareVersionModel,
            ErrorModel,
        >(parse_failure(input)),
        decoded_version(input) is Ok ==> ({
            let found = regex_captures(
                pattern_of(version_type_for(input.len()).unwrap()),
                input,
            );
            found is Some && covers(found.unwrap(), input)
        }),
{
}

/// The error for an input that is no firmware version.
fn failure(input: &str) -> (e: VeError)
    ensures
        e@ == parse_failure(input@),
{
    let mut message = String::from_str("Failed parsing the input <");
    message.append(input);
    message.append(">");
    VeError::FirmwareParseError(message)
}

/// The text of a group, empty where there is no such group or it took no
/// part in the match.
fn text_of_group(groups: &Vec<Option<String>>, i: usize) -> (text: &str)
    ensures
        text@ == group_text(groups.deep_view(), i as int),
{
    proof {
        reveal_strlit("");
    }
    if i < groups.len() {
        match &groups[i] {
            Some(text) => text.as_str(),
            None => "",
        }
    } else {
        ""
    }
}

/// Reads the number that a group of digits writes.
fn read_number(text: &str) -> (n: Option<u64>)
    ensures
        n == number_of(text@),
{
    if text.is_ascii() {
        proof {
            vstd::string::is_ascii_spec_bytes(text);
        }
        parse_decimal(text.as_bytes())
    } else {
        None
    }
}

/// Writes the semantic-version text for the groups of a match.
pub fn build_version_text(kind: VersionType, groups: &Vec<Option<String>>) -> (text: Option<
    String,
>)
    ensures
        text.deep_view() == version_text(kind, groups.deep_view()),
{
    let (major_at, minor_at, pre_at): (usize, usize, usize) = match kind {
        VersionType::FW => (2, 3, 1),
        VersionType::FWE => (1, 2, 3),
    };
    let major = match read_number(text_of_group(groups, major_at)) {
        Some(n) => n,
        None => { return None; },
    };
    let minor = match read_number(text_of_group(groups, minor_at)) {
        Some(n) => n,
        None => { return None; },
    };
    let pre = text_of_group(groups, pre_at);
    let mut text = decimal_text(major);
    text.append(".");
    text.append(decimal_text(minor).as_str());
    text.append(".0");
    match kind {
        VersionType::FW => {
            if pre.unicode_len() != 0 {
                text.append("-");
                text.append(pre);
            }
        },
        VersionType::FWE => {
            if !same_text(pre, "FF") {
                text.append("-beta-");
                text.append(pre);
            }
        },
    }
    Some(text)
}

/// Whether two texts are equal.
fn same_text(a: &str, b: &str) -> (same: bool)
    ensures
        same == (a@ == b@),
{
    String::from_str(a) == String::from_str(b)
}

impl FirmwareVersion {
    /// Decodes a firmware version. The encoding is chosen by the number
    /// of characters, the whole text is matched against the encoding's
    /// pattern, and the version is read from the text made of the parts
    /// found. A text of another length, a text that the pattern does not
    /// match from its first character to its last, and parts that make no
    /// version give an error that quotes the input.
    pub fn from_str(s: &str) -> (r: Result<FirmwareVersion, VeError>)
        ensures
            version_outcome(r) == decoded_version(s@),
    {
        let len = s.unicode_len();
        let kind = if 3 <= len && len <= 4 {
            VersionType::FW
        } else if 5 <= len && len <= 6 {
            VersionType::FWE
        } else {
            return Err(failure(s));
        };
        let captured = captures(pattern(kind), s);
        FirmwareVersion::from_captures(kind, s, captured)
    }

    /// Decodes a firmware version from what the search for the pattern
    /// of `kind` in `s` has captured. Captures whose match is not the
    /// whole of `s` are refused.
    pub fn from_captures(kind: VersionType, s: &str, captured: Option<Vec<Option<String>>>) -> (r:
        Result<FirmwareVersion, VeError>)
        ensures
            version_outcome(r) == version_from_captures(kind, s@, captured.deep_view()),
    {
        let groups = match captured {
            Some(groups) => groups,
            None => { return Err(failure(s)); },
        };
        if !same_text(text_of_group(&groups, 0), s) {
            return Err(failure(s));
        }
        let text = match build_version_text(kind, &groups) {
            Some(text) => text,
            None => { return Err(failure(s)); },
        };
        let parsed = parse_semver(text.as_str());
        FirmwareVersion::from_parsed(kind, s, parsed)
    }

    /// Decodes a firmware version from what reading the version text has
    /// given: the version with its encoding, or the error for `s`.
    pub fn from_parsed(kind: VersionType, s: &str, parsed: Option<Version>) -> (r: Result<
        FirmwareVersion,
        VeError,
    >)
        ensures
            version_outcome(r) == version_from_parsed(kind, s@, parsed.deep_view()),
    {
        match parsed {
            Some(version) => Ok(FirmwareVersion { version, version_type: kind }),
            None => Err(failure(s)),
        }
    }
}

} // verus!
