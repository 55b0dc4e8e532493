//! Numbers as text: the decimal and hexadecimal notations of the wire
//! format, read and written.

use vstd::prelude::*;

verus! {

/// `String::push` of std: the character is added at the end of the string.
#[verifier::external_body]
fn push_char(s: &mut String, c: char)
    ensures
        final(s)@ == old(s)@.push(c),
{
    s.push(c)
}

/// The character that stands for a byte: the one with the byte's number.
/// For an ASCII byte this is the ASCII character.
pub open spec fn char_of_byte(b: u8) -> char {
    b as char
}

/// The text that stands for a sequence of bytes, byte by byte.
pub open spec fn text_of_bytes(bytes: Seq<u8>) -> Seq<char> {
    Seq::new(bytes.len(), |i: int| char_of_byte(bytes[i]))
}

/// Turns bytes into text, byte by byte.
pub fn bytes_to_text(bytes: &[u8]) -> (text: String)
    ensures
        text@ == text_of_bytes(bytes@),
{
    let mut text = String::new();
    let mut i: usize = 0;
    while i < bytes.len()
        invariant
            i <= bytes.len(),
            text@ == text_of_bytes(bytes@.take(i as int)),
        decreases bytes.len() - i,
    {
        push_char(&mut text, bytes[i] as char);
        i += 1;
    }
    text
}

/// The bytes of a text of ASCII characters.
pub open spec fn ascii_bytes(text: Seq<char>) -> Seq<u8> {
    Seq::new(text.len(), |i: int| text[i] as u8)
}

/// The character of a decimal digit.
pub open spec fn digit_char(d: nat) -> char
    recommends
        d < 10,
{
    (48 + d) as char
}

/// The decimal notation of a number, without sign or leading zeros.
pub open spec fn decimal_digits(n: nat) -> Seq<char>
    decreases n,
{
    if n < 10 {
        seq![digit_char(n)]
    } else {
        decimal_digits(n / 10).push(digit_char(n % 10))
    }
}

/// Writes a number in decimal notation.
pub fn decimal_text(n: u64) -> (text: String)
    ensures
        text@ == decimal_digits(n as nat),
    decreases n,
{
    if n < 10 {
        let mut text = String::new();
        push_char(&mut text, (48u8 + n as u8) as char);
        text
    } else {
        let mut text = decimal_text(n / 10);
        push_char(&mut text, (48u8 + (n % 10) as u8) as char);
        text
    }
}

/// Whether a byte is a decimal digit.
pub open spec fn is_digit(b: u8) -> bool {
    48 <= b <= 57
}

/// Whether every byte is a decimal digit.
pub open spec fn all_digits(s: Seq<u8>) -> bool {
    forall|i: int| 0 <= i < s.len() ==> is_digit(#[trigger] s[i])
}

/// The number that a run of decimal digits writes.
pub open spec fn digits_value(s: Seq<u8>) -> nat
    decreases s.len(),
{
    if s.len() == 0 {
        0
    } else {
        (digits_value(s.drop_last()) * 10 + (s.last() - 48)) as nat
    }
}

/// The number written by `s` in decimal notation: one digit or more and
/// nothing else.
pub open spec fn decimal_value(s: Seq<u8>) -> Option<nat> {
    if s.len() > 0 && all_digits(s) {
        Some(digits_value(s))
    } else {
        None
    }
}

/// A longer run of digits writes no smaller number than its beginning.
pub proof fn lemma_digits_value_grows(s: Seq<u8>, i: int)
    requires
        all_digits(s),
        0 <= i <= s.len(),
    ensures
        digits_value(s.take(i)) <= digits_value(s),
    decreases s.len() - i,
{
    if i < s.len() {
        assert(s.take(i + 1).drop_last() =~= s.take(i));
        lemma_digits_value_grows(s, i + 1);
    } else {
        assert(s.take(i) =~= s);
    }
}

/// Reads a number in decimal notation. The result is `None` where the
/// bytes are not such a notation or the number does not fit.
pub fn parse_decimal(bytes: &[u8]) -> (value: Option<u64>)
    ensures
        value == match decimal_value(bytes@) {
            Some(n) => if n <= u64::MAX {
                Some(n as u64)
            } else {
                None
            },
            None => None,
        },
{
    if bytes.len() == 0 {
        return None;
    }
    let mut acc: u64 = 0;
    let mut i: usize = 0;
    while i < bytes.len()
        invariant
            i <= bytes.len(),
            all_digits(bytes@.take(i as int)),
            acc as nat == digits_value(bytes@.take(i as int)),
        decreases bytes.len() - i,
    {
        let b = bytes[i];
        if b < 48 || b > 57 {
            return None;
        }
        let d: u64 = (b - 48) as u64;
        proof {
            assert(bytes@.take(i + 1).drop_last() =~= bytes@.take(i as int));
        }
        if acc > (u64::MAX - d) / 10 {
            proof {
                if all_digits(bytes@) {
                    lemma_digits_value_grows(bytes@, i + 1);
                }
            }
            return None;
        }
        acc = acc * 10 + d;
        i += 1;
    }
    proof {
        assert(bytes@.take(i as int) =~= bytes@);
    }
    Some(acc)
}

/// Whether a byte is a hexadecimal digit, in either case.
pub open spec fn is_hex_digit(b: u8) -> bool {
    48 <= b <= 57 || 65 <= b <= 70 || 97 <= b <= 102
}

/// The number that a hexadecimal digit stands for.
pub open spec fn hex_digit_value(b: u8) -> nat
    recommends
        is_hex_digit(b),
{
    if b <= 57 {
        (b - 48) as nat
    } else if b <= 70 {
        (b - 55) as nat
    } else {
        (b - 87) as nat
    }
}

/// Whether every byte is a hexadecimal digit.
pub open spec fn all_hex_digits(s: Seq<u8>) -> bool {
    forall|i: int| 0 <= i < s.len() ==> is_hex_digit(#[trigger] s[i])
}

/// The number that a run of hexadecimal digits writes.
pub open spec fn hex_digits_value(s: Seq<u8>) -> nat
    decreases s.len(),
{
    if s.len() == 0 {
        0
    } else {
        hex_digits_value(s.drop_last()) * 16 + hex_digit_value(s.last())
    }
}

/// The number written by `s` in hexadecimal notation without a prefix:
/// one digit or more and nothing else.
pub open spec fn hex_value(s: Seq<u8>) -> Option<nat> {
    if s.len() > 0 && all_hex_digits(s) {
        Some(hex_digits_value(s))
    } else {
        None
    }
}

/// A longer run of hexadecimal digits writes no smaller number than its
/// beginning.
pub proof fn lemma_hex_digits_value_grows(s: Seq<u8>, i: int)
    requires
        0 <= i <= s.len(),
    ensures
        hex_digits_value(s.take(i)) <= hex_digits_value(s),
    decreases s.len() - i,
{
    if i < s.len() {
        assert(s.take(i + 1).drop_last() =~= s.take(i));
        lemma_hex_digits_value_grows(s, i + 1);
    } else {
        assert(s.take(i) =~= s);
    }
}

/// Reads a number in hexadecimal notation without a prefix. The result
/// is `None` where the bytes are not such a notation or the number does
/// not fit.
pub fn parse_hex(bytes: &[u8]) -> (value: Option<u64>)
    ensures
        value == match hex_value(bytes@) {
            Some(n) => if n <= u64::MAX {
                Some(n as u64)
            } else {
                None
            },
            None => None,
        },
{
    if bytes.len() == 0 {
        return None;
    }
    let mut acc: u64 = 0;
    let mut i: usize = 0;
    while i < bytes.len()
        invariant
            i <= bytes.len(),
            all_hex_digits(bytes@.take(i as int)),
            acc as nat == hex_digits_value(bytes@.take(i as int)),
        decreases bytes.len() - i,
    {
        let b = bytes[i];
        let d: u64 = if 48 <= b && b <= 57 {
            (b - 48) as u64
        } else if 65 <= b && b <= 70 {
            (b - 55) as u64
        } else if 97 <= b && b <= 102 {
            (b - 87) as u64
        } else {
            return None;
        };
        proof {
            assert(bytes@.take(i + 1).drop_last() =~= bytes@.take(i as int));
        }
        if acc > (u64::MAX - d) / 16 {
            proof {
                lemma_hex_digits_value_grows(bytes@, i + 1);
            }
            return None;
        }
        acc = acc * 16 + d;
        i += 1;
    }
    proof {
        assert(bytes@.take(i as int) =~= bytes@);
    }
    Some(acc)
}

/// The integer that a value writes: hexadecimal digits after the prefix
/// `0x`, or decimal digits after an optional sign.
pub open spec fn integer_value(s: Seq<u8>) -> Option<int> {
    if s.len() >= 2 && s[0] == 48 && s[1] == 120 {
        match hex_value(s.skip(2)) {
            Some(n) => Some(n as int),
            None => None,
        }
    } else if s.len() >= 1 && s[0] == 45 {
        match decimal_value(s.skip(1)) {
            Some(n) => Some(-(n as int)),
            None => None,
        }
    } else if s.len() >= 1 && s[0] == 43 {
        match decimal_value(s.skip(1)) {
            Some(n) => Some(n as int),
            None => None,
        }
    } else {
        match decimal_value(s) {
            Some(n) => Some(n as int),
            None => None,
        }
    }
}

/// The integer that a value writes, where it fits in 64 bits.
pub open spec fn integer_of(s: Seq<u8>) -> Option<i64> {
    match integer_value(s) {
        Some(n) => if i64::MIN <= n <= i64::MAX {
            Some(n as i64)
        } else {
            None
        },
        None => None,
    }
}

/// Reads an integer: hexadecimal after the prefix `0x`, else decimal
/// with an optional sign. The result is `None` where the bytes are not
/// such a notation or the number does not fit in 64 bits.
pub fn parse_integer(bytes: &[u8]) -> (value: Option<i64>)
    ensures
        value == integer_of(bytes@),
{
    let n = bytes.len();
    if n >= 2 && bytes[0] == 48 && bytes[1] == 120 {
        match parse_hex(vstd::slice::slice_subrange(bytes, 2, n)) {
            Some(v) => if v <= i64::MAX as u64 {
                Some(v as i64)
            } else {
                None
            },
            None => None,
        }
    } else if n >= 1 && bytes[0] == 45 {
        match parse_decimal(vstd::slice::slice_subrange(bytes, 1, n)) {
            Some(v) => if v <= i64::MAX as u64 {
                Some(-(v as i64))
            } else if v == 0x8000_0000_0000_0000 {
                Some(i64::MIN)
            } else {
                None
            },
            None => None,
        }
    } else if n >= 1 && bytes[0] == 43 {
        match parse_decimal(vstd::slice::slice_subrange(bytes, 1, n)) {
            Some(v) => if v <= i64::MAX as u64 {
                Some(v as i64)
            } else {
                None
            },
            None => None,
        }
    } else {
        match parse_decimal(bytes) {
            Some(v) => if v <= i64::MAX as u64 {
                Some(v as i64)
            } else {
                None
            },
            None => None,
        }
    }
}

/// The decimal notation of an integer: a minus sign before a negative
/// number, no sign otherwise.
pub open spec fn signed_digits(n: int) -> Seq<char> {
    if n < 0 {
        seq!['-'] + decimal_digits((-n) as nat)
    } else {
        decimal_digits(n as nat)
    }
}

/// Writes an integer in decimal notation.
pub fn signed_text(n: i64) -> (text: String)
    ensures
        text@ == signed_digits(n as int),
{
    if n < 0 {
        let magnitude: u64 = (-(n + 1)) as u64 + 1;
        let mut text = String::new();
        push_char(&mut text, '-');
        text.append(decimal_text(magnitude).as_str());
        text
    } else {
        decimal_text(n as u64)
    }
}

/// The character of a hexadecimal digit, in upper case.
pub open spec fn hex_char(d: nat) -> char
    recommends
        d < 16,
{
    if d < 10 {
        (48 + d) as char
    } else {
        (55 + d) as char
    }
}

/// The hexadecimal notation of a number, in upper case, without prefix
/// or leading zeros.
pub open spec fn hex_digits(n: nat) -> Seq<char>
    decreases n,
{
    if n < 16 {
        seq![hex_char(n)]
    } else {
        hex_digits(n / 16).push(hex_char(n % 16))
    }
}

/// Writes a number in hexadecimal notation, in upper case.
pub fn hex_text(n: u32) -> (text: String)
    ensures
        text@ == hex_digits(n as nat),
    decreases n,
{
    let d: u8 = (n % 16) as u8;
    let c: char = if d < 10 {
        (48u8 + d) as char
    } else {
        (55u8 + d) as char
    };
    if n < 16 {
        let mut text = String::new();
        push_char(&mut text, c);
        text
    } else {
        let mut text = hex_text(n / 16);
        push_char(&mut text, c);
        text
    }
}

/// The decimal notation is made of digits, and reading it gives the
/// number back.
pub proof fn lemma_decimal_read_back(n: nat)
    ensures
        decimal_digits(n).len() > 0,
        all_digits(ascii_bytes(decimal_digits(n))),
        decimal_value(ascii_bytes(decimal_digits(n))) == Some(n),
    decreases n,
{
    let text = decimal_digits(n);
    let bytes = ascii_bytes(text);
    if n < 10 {
        assert(digits_value(bytes) == digits_value(bytes.drop_last()) * 10 + (bytes.last() - 48));
    } else {
        lemma_decimal_read_back(n / 10);
        let front = ascii_bytes(decimal_digits(n / 10));
        assert(bytes.drop_last() =~= front);
        assert forall|i: int| 0 <= i < bytes.len() implies is_digit(#[trigger] bytes[i]) by {
            if i < front.len() {
                assert(is_digit(front[i]));
            }
        }
    }
}

/// The hexadecimal notation is made of hexadecimal digits, and reading it
/// gives the number back.
pub proof fn lemma_hex_read_back(n: nat)
    ensures
        hex_digits(n).len() > 0,
        all_hex_digits(ascii_bytes(hex_digits(n))),
        hex_value(ascii_bytes(hex_digits(n))) == Some(n),
    decreases n,
{
    let text = hex_digits(n);
    let bytes = ascii_bytes(text);
    if n < 16 {
        assert(hex_digits_value(bytes) == hex_digits_value(bytes.drop_last()) * 16
            + hex_digit_value(bytes.last()));
    } else {
        lemma_hex_read_back(n / 16);
        let front = ascii_bytes(hex_digits(n / 16));
        assert(bytes.drop_last() =~= front);
        assert forall|i: int| 0 <= i < bytes.len() implies is_hex_digit(#[trigger] bytes[i]) by {
            if i < front.len() {
                assert(is_hex_digit(front[i]));
            }
        }
    }
}

/// Numbers are written as they are read: the text of an integer is read
/// as that integer.
pub proof fn lemma_integer_read_back(n: int)
    ensures
        integer_value(ascii_bytes(signed_digits(n))) == Some(n),
{
    let bytes = ascii_bytes(signed_digits(n));
    if n < 0 {
        let digits = ascii_bytes(decimal_digits((-n) as nat));
        lemma_decimal_read_back((-n) as nat);
        assert(bytes.skip(1) =~= digits);
    } else {
        lemma_decimal_read_back(n as nat);
    }
}

} // verus!
