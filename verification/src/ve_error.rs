//! The errors of this crate.

use vstd::prelude::*;

verus! {

/// What can go wrong between raw bytes and a typed record. No error is
/// recovered from inside the crate: each one reaches the caller.
#[derive(Debug, Clone, PartialEq, Eq)]
pub enum VeError {
    /// The bytes of a frame, checksum included, do not sum to zero.
    ChecksumMismatch,
    /// A line of a frame does not hold one key and one value, or no frame
    /// was complete where a whole frame was expected.
    MalformedFrame,
    /// A required field, named here by its key, is absent.
    MissingField(String),
    /// The field with this key is present, but its text does not have the
    /// expected shape.
    MalformedValue(String),
    /// The number held by the field with this key stands for no member of
    /// the enumeration. The number is kept.
    UnknownEnumValue(String, i64),
    /// A firmware version has a length or a pattern that neither encoding
    /// allows. The message quotes the input.
    FirmwareParseError(String),
}

/// The mathematical value of a [`VeError`].
pub enum ErrorModel {
    ChecksumMismatch,
    MalformedFrame,
    MissingField(Seq<char>),
    MalformedValue(Seq<char>),
    UnknownEnumValue(Seq<char>, int),
    FirmwareParseError(Seq<char>),
}

impl View for VeError {
    type V = ErrorModel;

    open spec fn view(&self) -> ErrorModel {
        match self {
            VeError::ChecksumMismatch => ErrorModel::ChecksumMismatch,
            VeError::MalformedFrame => ErrorModel::MalformedFrame,
            VeError::MissingField(key) => ErrorModel::MissingField(key@),
            VeError::MalformedValue(key) => ErrorModel::MalformedValue(key@),
            VeError::UnknownEnumValue(key, value) => ErrorModel::UnknownEnumValue(
                key@,
                *value as int,
            ),
            VeError::FirmwareParseError(message) => ErrorModel::FirmwareParseError(message@),
        }
    }
}

} // verus!
