//! The conversions from the fields of a frame to typed values.
//!
//! The fields of a frame are read as a collection in which a key has one
//! value: where a key stands more than once, its last value counts. The
//! collection is never built: a key is looked up in the fields themselves,
//! from the last one back. Every conversion takes the fields and a key,
//! and tells a field that is absent from a field whose value has the
//! wrong shape.

use crate::constants::{decode, lemma_decode_member, lemma_decode_none, WireEnum};
use crate::parser::{Field, FieldModel};
use crate::text::{bytes_to_text, integer_of, parse_integer, text_of_bytes};
use crate::types::Scaled;
use crate::ve_error::{ErrorModel, VeError};
use vstd::prelude::*;
use vstd::utf8::encode_utf8;

verus! {

/// The bytes that a key is written with.
pub open spec fn key_bytes(key: Seq<char>) -> Seq<u8> {
    encode_utf8(key)
}

/// The fields of a frame as a collection: a map from key to value, in
/// which a key that stands more than once has the value that came last.
pub open spec fn collection(fields: Seq<FieldModel>) -> Map<Seq<u8>, Seq<u8>>
    decreases fields.len(),
{
    if fields.len() == 0 {
        Map::empty()
    } else {
        collection(fields.drop_last()).insert(fields.last().key, fields.last().value)
    }
}

/// The value that the fields give to a key, if they give one.
pub open spec fn field_value(fields: Seq<FieldModel>, key: Seq<u8>) -> Option<Seq<u8>> {
    collection(fields).get(key)
}

/// The value of a key is that of the last field with the key: where the
/// last field has another key, it is the value that the fields before it
/// give.
pub proof fn lemma_last_field_counts(fields: Seq<FieldModel>, key: Seq<u8>)
    requires
        fields.len() > 0,
    ensures
        field_value(fields, key) == if fields.last().key == key {
            Some(fields.last().value)
        } else {
            field_value(fields.drop_last(), key)
        },
{
}

/// The value `ON` of a switch.
pub open spec fn on_value() -> Seq<u8> {
    seq![79u8, 78u8]
}

/// The value `OFF` of a switch.
pub open spec fn off_value() -> Seq<u8> {
    seq![79u8, 70u8, 70u8]
}

/// The text of a field that must be there.
pub open spec fn text_field(fields: Seq<FieldModel>, key: Seq<char>) -> Result<
    Seq<char>,
    ErrorModel,
> {
    match field_value(fields, key_bytes(key)) {
        Some(value) => Ok(text_of_bytes(value)),
        None => Err(ErrorModel::MissingField(key)),
    }
}

/// The integer of a field that must be there.
pub open spec fn integer_field(fields: Seq<FieldModel>, key: Seq<char>) -> Result<
    i64,
    ErrorModel,
> {
    match field_value(fields, key_bytes(key)) {
        Some(value) => match integer_of(value) {
            Some(n) => Ok(n),
            None => Err(ErrorModel::MalformedValue(key)),
        },
        None => Err(ErrorModel::MissingField(key)),
    }
}

/// The integer of a field that must be there and lie between `low` and
/// `high`.
pub open spec fn ranged_field(fields: Seq<FieldModel>, key: Seq<char>, low: i64, high: i64)
    -> Result<i64, ErrorModel> {
    match integer_field(fields, key) {
        Ok(n) => if low <= n <= high {
            Ok(n)
        } else {
            Err(ErrorModel::MalformedValue(key))
        },
        Err(e) => Err(e),
    }
}

/// The quantity of a field that must be there: its integer over
/// `divisor`.
pub open spec fn scaled_field(fields: Seq<FieldModel>, key: Seq<char>, divisor: u32) -> Result<
    Scaled,
    ErrorModel,
> {
    match integer_field(fields, key) {
        Ok(raw) => Ok(Scaled { raw, divisor }),
        Err(e) => Err(e),
    }
}

/// The quantity of a field that may be absent.
pub open spec fn optional_scaled_field(fields: Seq<FieldModel>, key: Seq<char>, divisor: u32)
    -> Result<Option<Scaled>, ErrorModel> {
    match field_value(fields, key_bytes(key)) {
        Some(value) => match integer_of(value) {
            Some(raw) => Ok(Some(Scaled { raw, divisor })),
            None => Err(ErrorModel::MalformedValue(key)),
        },
        None => Ok(None),
    }
}

/// The state of a switch that may be absent: `ON` or `OFF`.
pub open spec fn switch_field(fields: Seq<FieldModel>, key: Seq<char>) -> Result<
    Option<bool>,
    ErrorModel,
> {
    match field_value(fields, key_bytes(key)) {
        Some(value) => if value == on_value() {
            Ok(Some(true))
        } else if value == off_value() {
            Ok(Some(false))
        } else {
            Err(ErrorModel::MalformedValue(key))
        },
        None => Ok(None),
    }
}

/// The single byte that is the value of a field that must be there.
pub open spec fn byte_field(fields: Seq<FieldModel>, key: Seq<char>) -> Result<u8, ErrorModel> {
    match field_value(fields, key_bytes(key)) {
        Some(value) => if value.len() == 1 {
            Ok(value[0])
        } else {
            Err(ErrorModel::MalformedValue(key))
        },
        None => Err(ErrorModel::MissingField(key)),
    }
}

/// The member of an enumeration that a field, which must be there, gives
/// the number of.
pub open spec fn enum_field<E: WireEnum>(fields: Seq<FieldModel>, key: Seq<char>) -> Result<
    E,
    ErrorModel,
> {
    match integer_field(fields, key) {
        Ok(code) => match decode::<E>(code as int) {
            Some(member) => Ok(member),
            None => Err(ErrorModel::UnknownEnumValue(key, code as int)),
        },
        Err(e) => Err(e),
    }
}

/// Whether two runs of bytes are the same.
pub fn same_bytes(a: &[u8], b: &[u8]) -> (same: bool)
    ensures
        same == (a@ == b@),
{
    if a.len() != b.len() {
        return false;
    }
    let mut i: usize = 0;
    while i < a.len()
        invariant
            i <= a.len(),
            a@.len() == b@.len(),
            forall|j: int| 0 <= j < i ==> a@[j] == b@[j],
        decreases a.len() - i,
    {
        if a[i] != b[i] {
            return false;
        }
        i += 1;
    }
    assert(a@ =~= b@);
    true
}

/// Looks a key up in the fields of a frame. Of several fields with the
/// key, the last one counts.
pub fn lookup<'a>(fields: &'a Vec<Field>, key: &str) -> (value: Option<&'a Vec<u8>>)
    ensures
        match value {
            Some(v) => field_value(fields.deep_view(), key_bytes(key@)) == Some(v@),
            None => field_value(fields.deep_view(), key_bytes(key@)) is None,
        },
{
    let wanted = key.as_bytes();
    let ghost all = fields.deep_view();
    let mut i: usize = fields.len();
    proof {
        assert(all.take(i as int) =~= all);
    }
    while i > 0
        invariant
            i <= fields.len(),
            all == fields.deep_view(),
            wanted@ == key_bytes(key@),
            field_value(all, wanted@) == field_value(all.take(i as int), wanted@),
        decreases i,
    {
        proof {
            assert(all.take(i as int).drop_last() =~= all.take(i - 1));
            lemma_last_field_counts(all.take(i as int), wanted@);
        }
        if same_bytes(fields[i - 1].key.as_slice(), wanted) {
            return Some(&fields[i - 1].value);
        }
        i -= 1;
    }
    None
}

/// The error for an absent field.
fn missing(key: &str) -> (e: VeError)
    ensures
        e@ == ErrorModel::MissingField(key@),
{
    VeError::MissingField(String::from_str(key))
}

/// The error for a value of the wrong shape.
fn malformed(key: &str) -> (e: VeError)
    ensures
        e@ == ErrorModel::MalformedValue(key@),
{
    VeError::MalformedValue(String::from_str(key))
}

/// Reads the text of a field. An absent field is a `MissingField`; there
/// is no other error, since every value is a text.
pub fn required_string(fields: &Vec<Field>, key: &str) -> (r: Result<String, VeError>)
    ensures
        match r {
            Ok(text) => text_field(fields.deep_view(), key@) == Ok::<Seq<char>, ErrorModel>(text@),
            Err(e) => text_field(fields.deep_view(), key@) == Err::<Seq<char>, ErrorModel>(e@),
        },
{
    match lookup(fields, key) {
        Some(value) => Ok(bytes_to_text(value.as_slice())),
        None => Err(missing(key)),
    }
}

/// Reads the integer of a field: hexadecimal after the prefix `0x`, else
/// decimal. An absent field is a `MissingField`, a value that is no
/// integer of 64 bits a `MalformedValue`.
pub fn required_integer(fields: &Vec<Field>, key: &str) -> (r: Result<i64, VeError>)
    ensures
        match r {
            Ok(n) => integer_field(fields.deep_view(), key@) == Ok::<i64, ErrorModel>(n),
            Err(e) => integer_field(fields.deep_view(), key@) == Err::<i64, ErrorModel>(e@),
        },
{
    match lookup(fields, key) {
        Some(value) => match parse_integer(value.as_slice()) {
            Some(n) => Ok(n),
            None => Err(malformed(key)),
        },
        None => Err(missing(key)),
    }
}

/// Reads the integer of a field that lies between `low` and `high`. An
/// integer outside is a `MalformedValue`.
pub fn required_integer_within(fields: &Vec<Field>, key: &str, low: i64, high: i64) -> (r: Result<
    i64,
    VeError,
>)
    ensures
        match r {
            Ok(n) => ranged_field(fields.deep_view(), key@, low, high) == Ok::<i64, ErrorModel>(n),
            Err(e) => ranged_field(fields.deep_view(), key@, low, high) == Err::<i64, ErrorModel>(
                e@,
            ),
        },
{
    let n = required_integer(fields, key)?;
    if low <= n && n <= high {
        Ok(n)
    } else {
        Err(malformed(key))
    }
}

/// Reads the quantity of a field: the integer on the wire, over
/// `divisor` wire units to the unit.
pub fn required_scaled(fields: &Vec<Field>, key: &str, divisor: u32) -> (r: Result<
    Scaled,
    VeError,
>)
    ensures
        match r {
            Ok(q) => scaled_field(fields.deep_view(), key@, divisor) == Ok::<Scaled, ErrorModel>(q),
            Err(e) => scaled_field(fields.deep_view(), key@, divisor) == Err::<Scaled, ErrorModel>(
                e@,
            ),
        },
{
    let raw = required_integer(fields, key)?;
    Ok(Scaled { raw, divisor })
}

/// Reads the quantity of a field that may be absent: no value where the
/// field is absent, and a `MalformedValue` where its value is no
/// integer.
pub fn optional_scaled(fields: &Vec<Field>, key: &str, divisor: u32) -> (r: Result<
    Option<Scaled>,
    VeError,
>)
    ensures
        match r {
            Ok(q) => optional_scaled_field(fields.deep_view(), key@, divisor) == Ok::<
                Option<Scaled>,
                ErrorModel,
            >(q),
            Err(e) => optional_scaled_field(fields.deep_view(), key@, divisor) == Err::<
                Option<Scaled>,
                ErrorModel,
            >(e@),
        },
{
    match lookup(fields, key) {
        Some(value) => match parse_integer(value.as_slice()) {
            Some(raw) => Ok(Some(Scaled { raw, divisor })),
            None => Err(malformed(key)),
        },
        None => Ok(None),
    }
}

/// Reads a switch that may be absent: `ON` is true, `OFF` is false, an
/// absent field is no value, and any other value is a `MalformedValue`.
pub fn optional_bool(fields: &Vec<Field>, key: &str) -> (r: Result<Option<bool>, VeError>)
    ensures
        match r {
            Ok(b) => switch_field(fields.deep_view(), key@) == Ok::<Option<bool>, ErrorModel>(b),
            Err(e) => switch_field(fields.deep_view(), key@) == Err::<Option<bool>, ErrorModel>(
                e@,
            ),
        },
{
    match lookup(fields, key) {
        Some(value) => {
            let v = value.as_slice();
            let on = v.len() == 2 && v[0] == 79 && v[1] == 78;
            let off = v.len() == 3 && v[0] == 79 && v[1] == 70 && v[2] == 70;
            proof {
                if on {
                    assert(v@ =~= on_value());
                }
                if off {
                    assert(v@ =~= off_value());
                }
            }
            if on {
                Ok(Some(true))
            } else if off {
                Ok(Some(false))
            } else {
                Err(malformed(key))
            }
        },
        None => Ok(None),
    }
}

/// Reads a field whose value is one byte that is no text, as the
/// checksum is. A value of another length is a `MalformedValue`.
pub fn required_byte(fields: &Vec<Field>, key: &str) -> (r: Result<u8, VeError>)
    ensures
        match r {
            Ok(b) => byte_field(fields.deep_view(), key@) == Ok::<u8, ErrorModel>(b),
            Err(e) => byte_field(fields.deep_view(), key@) == Err::<u8, ErrorModel>(e@),
        },
{
    match lookup(fields, key) {
        Some(value) => if value.len() == 1 {
            Ok(value[0])
        } else {
            Err(malformed(key))
        },
        None => Err(missing(key)),
    }
}

/// Reads the member of an enumeration from the number in a field. A
/// number that stands for no member is an `UnknownEnumValue` that keeps
/// the number.
pub fn required_enum<E: WireEnum>(fields: &Vec<Field>, key: &str) -> (r: Result<E, VeError>)
    ensures
        match r {
            Ok(member) => enum_field::<E>(fields.deep_view(), key@) == Ok::<E, ErrorModel>(member),
            Err(e) => enum_field::<E>(fields.deep_view(), key@) == Err::<E, ErrorModel>(e@),
        },
{
    let code = required_integer(fields, key)?;
    match E::from_code(code) {
        Some(member) => {
            proof {
                lemma_decode_member(member, code as int);
            }
            Ok(member)
        },
        None => {
            proof {
                lemma_decode_none::<E>(code as int);
            }
            Err(VeError::UnknownEnumValue(String::from_str(key), code))
        },
    }
}

} // verus!
