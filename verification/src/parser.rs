//! The tokenizer: from a buffer of bytes to the fields of the frames in it.
//!
//! A frame starts with a line break (carriage return, line feed). Lines
//! follow, each a key, a tab, a value and a line break. The frame ends
//! with the key `Checksum`, a tab and one byte, which may be any byte.
//!
//! Bytes before a frame's first line break are passed over. The bytes
//! from the end of the last whole frame on are handed back, so that the
//! caller can put them in front of what arrives next.

use crate::ve_error::{ErrorModel, VeError};
use vstd::prelude::*;
use vstd::slice::{slice_subrange, slice_to_vec};

verus! {

/// One key and its value, as they stood in a frame.
#[derive(Debug, Clone, PartialEq, Eq)]
pub struct Field {
    pub key: Vec<u8>,
    pub value: Vec<u8>,
}

/// The mathematical value of a [`Field`].
pub struct FieldModel {
    pub key: Seq<u8>,
    pub value: Seq<u8>,
}

impl DeepView for Field {
    type V = FieldModel;

    open spec fn deep_view(&self) -> FieldModel {
        FieldModel { key: self.key@, value: self.value@ }
    }
}

/// Carriage return.
pub const CR: u8 = 13;

/// Line feed.
pub const LF: u8 = 10;

/// The tab between a key and its value.
pub const TAB: u8 = 9;

/// The key of the line that ends a frame: `Checksum`.
pub open spec fn checksum_key() -> Seq<u8> {
    seq![67u8, 104u8, 101u8, 99u8, 107u8, 115u8, 117u8, 109u8]
}

/// Whether a line break starts at `i`.
pub open spec fn line_break_at(s: Seq<u8>, i: int) -> bool {
    0 <= i && i + 1 < s.len() && s[i] == CR && s[i + 1] == LF
}

/// Whether a scan stops at `i`: at a line break, and at a tab too where
/// `tabs` is set.
pub open spec fn stop_at(s: Seq<u8>, i: int, tabs: bool) -> bool {
    line_break_at(s, i) || (tabs && 0 <= i < s.len() && s[i] == TAB)
}

/// The first place at or after `from` where a scan stops.
pub open spec fn first_stop_from(s: Seq<u8>, from: int, tabs: bool) -> Option<int>
    decreases s.len() - from,
{
    if from < 0 || from >= s.len() {
        None
    } else if stop_at(s, from, tabs) {
        Some(from)
    } else {
        first_stop_from(s, from + 1, tabs)
    }
}

/// The start of the first line break in `s`.
pub open spec fn first_line_break(s: Seq<u8>) -> Option<int> {
    first_stop_from(s, 0, false)
}

/// The place of the first tab or line break in `s`.
pub open spec fn first_delimiter(s: Seq<u8>) -> Option<int> {
    first_stop_from(s, 0, true)
}

/// What stands at the start of a line.
pub enum LineScan {
    /// A key and its value, over `len` bytes with the line break.
    Pair { field: FieldModel, len: int },
    /// The line that ends the frame, over `len` bytes.
    Last { field: FieldModel, len: int },
    /// The bytes end before the line does.
    Incomplete,
    /// The line does not hold a key, a tab and a value.
    Malformed,
}

/// Reads the line that `s` starts with. The key runs to the first tab; a
/// line that breaks before any tab, an empty key and an empty value are
/// malformed. After the key `Checksum` the value is the next byte,
/// whatever it is; after another key it runs to the line break.
pub open spec fn scan_line(s: Seq<u8>) -> LineScan {
    match first_delimiter(s) {
        None => LineScan::Incomplete,
        Some(t) => if s[t] != TAB || t == 0 {
            LineScan::Malformed
        } else if s.take(t) == checksum_key() {
            if t + 1 < s.len() {
                LineScan::Last {
                    field: FieldModel { key: checksum_key(), value: seq![s[t + 1]] },
                    len: t + 2,
                }
            } else {
                LineScan::Incomplete
            }
        } else {
            match first_line_break(s.skip(t + 1)) {
                None => LineScan::Incomplete,
                Some(e) => if e == 0 {
                    LineScan::Malformed
                } else {
                    LineScan::Pair {
                        field: FieldModel { key: s.take(t), value: s.subrange(t + 1, t + 1 + e) },
                        len: t + e + 3,
                    }
                },
            }
        },
    }
}

/// What stands at the start of a buffer.
pub enum FrameScan {
    /// A whole frame over `len` bytes, with its fields in order. The last
    /// field is the checksum.
    Frame { fields: Seq<FieldModel>, len: int },
    /// The bytes end before the frame does.
    Incomplete,
    /// A line of the frame is malformed.
    Malformed,
}

/// `scan` as seen from `len` bytes earlier, after the fields `before`.
pub open spec fn after(before: Seq<FieldModel>, len: int, scan: FrameScan) -> FrameScan {
    match scan {
        FrameScan::Frame { fields, len: more } => FrameScan::Frame {
            fields: before + fields,
            len: len + more,
        },
        FrameScan::Incomplete => FrameScan::Incomplete,
        FrameScan::Malformed => FrameScan::Malformed,
    }
}

/// Reads lines up to the one that ends the frame.
pub open spec fn scan_lines(s: Seq<u8>) -> FrameScan
    decreases s.len(),
{
    match scan_line(s) {
        LineScan::Pair { field, len } => {
            proof {
                lemma_scan_line_len(s);
            }
            after(seq![field], len, scan_lines(s.skip(len)))
        },
        LineScan::Last { field, len } => FrameScan::Frame { fields: seq![field], len },
        LineScan::Incomplete => FrameScan::Incomplete,
        LineScan::Malformed => FrameScan::Malformed,
    }
}

/// Reads the frame that starts at the first line break of `s`.
pub open spec fn scan_frame(s: Seq<u8>) -> FrameScan {
    match first_line_break(s) {
        None => FrameScan::Incomplete,
        Some(i) => after(Seq::empty(), i + 2, scan_lines(s.skip(i + 2))),
    }
}

/// The fields `before`, then what `rest` holds.
pub open spec fn and_then(before: Seq<FieldModel>, rest: Option<(Seq<FieldModel>, Seq<u8>)>)
    -> Option<(Seq<FieldModel>, Seq<u8>)> {
    match rest {
        Some((fields, remainder)) => Some((before + fields, remainder)),
        None => None,
    }
}

/// The fields of all the whole frames of `s`, in order, and the bytes
/// that follow the last of them. `None` where a line is malformed.
pub open spec fn tokens(s: Seq<u8>) -> Option<(Seq<FieldModel>, Seq<u8>)>
    decreases s.len(),
{
    match scan_frame(s) {
        FrameScan::Frame { fields, len } => {
            proof {
                lemma_scan_frame_len(s);
            }
            and_then(fields, tokens(s.skip(len)))
        },
        FrameScan::Incomplete => Some((Seq::empty(), s)),
        FrameScan::Malformed => None,
    }
}

/// Where a scan from `from` stops, and that it stops nowhere before.
pub proof fn lemma_first_stop(s: Seq<u8>, from: int, tabs: bool)
    requires
        0 <= from,
    ensures
        match first_stop_from(s, from, tabs) {
            Some(e) => from <= e < s.len() && stop_at(s, e, tabs) && forall|j: int|
                from <= j < e ==> !stop_at(s, j, tabs),
            None => forall|j: int| from <= j ==> !stop_at(s, j, tabs),
        },
    decreases s.len() - from,
{
    if from < s.len() && !stop_at(s, from, tabs) {
        lemma_first_stop(s, from + 1, tabs);
    }
}

/// A place where a scan stops, with none before it, is where the scan
/// from `from` stops.
pub proof fn lemma_first_stop_is(s: Seq<u8>, from: int, tabs: bool, e: int)
    requires
        0 <= from <= e,
        stop_at(s, e, tabs),
        forall|j: int| from <= j < e ==> !stop_at(s, j, tabs),
    ensures
        first_stop_from(s, from, tabs) == Some(e),
    decreases e - from,
{
    if from < e {
        lemma_first_stop_is(s, from + 1, tabs, e);
    }
}

/// A scan that finds no stop at all.
pub proof fn lemma_no_stop(s: Seq<u8>, from: int, tabs: bool)
    requires
        0 <= from,
        forall|j: int| from <= j < s.len() ==> !stop_at(s, j, tabs),
    ensures
        first_stop_from(s, from, tabs) is None,
    decreases s.len() - from,
{
    if from < s.len() {
        lemma_no_stop(s, from + 1, tabs);
    }
}

/// A line that was read takes at least two bytes and no more than
/// there are.
pub proof fn lemma_scan_line_len(s: Seq<u8>)
    ensures
        match scan_line(s) {
            LineScan::Pair { field, len } => 3 <= len <= s.len(),
            LineScan::Last { field, len } => 2 <= len <= s.len(),
            _ => true,
        },
{
    lemma_first_stop(s, 0, true);
    match first_delimiter(s) {
        Some(t) => {
            lemma_first_stop(s.skip(t + 1), 0, false);
        },
        None => {},
    }
}

/// Lines that were read to the end of a frame take at least two bytes
/// and no more than there are, and hold a field.
pub proof fn lemma_scan_lines_len(s: Seq<u8>)
    ensures
        match scan_lines(s) {
            FrameScan::Frame { fields, len } => 2 <= len <= s.len() && fields.len() > 0,
            _ => true,
        },
    decreases s.len(),
{
    lemma_scan_line_len(s);
    match scan_line(s) {
        LineScan::Pair { field, len } => {
            lemma_scan_lines_len(s.skip(len));
        },
        _ => {},
    }
}

/// A frame that was read takes at least four bytes and no more than
/// there are, and holds a field.
pub proof fn lemma_scan_frame_len(s: Seq<u8>)
    ensures
        match scan_frame(s) {
            FrameScan::Frame { fields, len } => 4 <= len <= s.len() && fields.len() > 0,
            _ => true,
        },
{
    lemma_first_stop(s, 0, false);
    match first_line_break(s) {
        Some(i) => {
            lemma_scan_lines_len(s.skip(i + 2));
        },
        None => {},
    }
}

/// Finds the first place where a scan of `s` stops.
fn find_stop(s: &[u8], tabs: bool) -> (at: Option<usize>)
    ensures
        match at {
            Some(e) => first_stop_from(s@, 0, tabs) == Some(e as int) && e < s@.len() && stop_at(
                s@,
                e as int,
                tabs,
            ),
            None => first_stop_from(s@, 0, tabs) is None,
        },
{
    let mut i: usize = 0;
    while i < s.len()
        invariant
            i <= s.len(),
            forall|j: int| 0 <= j < i ==> !stop_at(s@, j, tabs),
        decreases s.len() - i,
    {
        let b = s[i];
        if (tabs && b == TAB) || (b == CR && i + 1 < s.len() && s[i + 1] == LF) {
            proof {
                lemma_first_stop_is(s@, 0, tabs, i as int);
            }
            return Some(i);
        }
        i += 1;
    }
    proof {
        lemma_no_stop(s@, 0, tabs);
    }
    None
}

/// Whether `key` is the key of the line that ends a frame.
fn is_checksum_key(key: &[u8]) -> (is: bool)
    ensures
        is == (key@ == checksum_key()),
{
    let is = key.len() == 8 && key[0] == 67 && key[1] == 104 && key[2] == 101 && key[3] == 99
        && key[4] == 107 && key[5] == 115 && key[6] == 117 && key[7] == 109;
    proof {
        if is {
            assert(key@ =~= checksum_key());
        }
    }
    is
}

/// What [`read_line`] found.
#[derive(Debug, Clone, PartialEq, Eq)]
pub enum Line {
    /// A key and its value, over `len` bytes with the line break.
    Pair { field: Field, len: usize },
    /// The line that ends the frame, over `len` bytes.
    Last { field: Field, len: usize },
    /// The bytes end before the line does.
    Incomplete,
    /// The line does not hold a key, a tab and a value.
    Malformed,
}

impl DeepView for Line {
    type V = LineScan;

    open spec fn deep_view(&self) -> LineScan {
        match self {
            Line::Pair { field, len } => LineScan::Pair {
                field: field.deep_view(),
                len: *len as int,
            },
            Line::Last { field, len } => LineScan::Last {
                field: field.deep_view(),
                len: *len as int,
            },
            Line::Incomplete => LineScan::Incomplete,
            Line::Malformed => LineScan::Malformed,
        }
    }
}

/// Reads the line that `s` starts with.
pub fn read_line(s: &[u8]) -> (line: Line)
    ensures
        line.deep_view() == scan_line(s@),
{
    let t = match find_stop(s, true) {
        Some(t) => t,
        None => { return Line::Incomplete; },
    };
    if s[t] != TAB || t == 0 {
        return Line::Malformed;
    }
    let key = slice_subrange(s, 0, t);
    if is_checksum_key(key) {
        if t + 1 < s.len() {
            let mut value = Vec::new();
            value.push(s[t + 1]);
            return Line::Last { field: Field { key: slice_to_vec(key), value }, len: t + 2 };
        } else {
            return Line::Incomplete;
        }
    }
    let rest = slice_subrange(s, t + 1, s.len());
    let e = match find_stop(rest, false) {
        Some(e) => e,
        None => { return Line::Incomplete; },
    };
    if e == 0 {
        return Line::Malformed;
    }
    proof {
        lemma_first_stop(rest@, 0, false);
        assert(rest@.subrange(0, e as int) =~= s@.subrange(t + 1, t + 1 + e));
    }
    let value = slice_to_vec(slice_subrange(rest, 0, e));
    Line::Pair { field: Field { key: slice_to_vec(key), value }, len: t + e + 3 }
}

/// What [`read_frame`] found.
#[derive(Debug, Clone, PartialEq, Eq)]
pub enum Frame {
    /// A whole frame over `len` bytes, with its fields in order.
    Whole { fields: Vec<Field>, len: usize },
    /// The bytes end before the frame does.
    Incomplete,
    /// A line of the frame is malformed.
    Malformed,
}

impl DeepView for Frame {
    type V = FrameScan;

    open spec fn deep_view(&self) -> FrameScan {
        match self {
            Frame::Whole { fields, len } => FrameScan::Frame {
                fields: fields.deep_view(),
                len: *len as int,
            },
            Frame::Incomplete => FrameScan::Incomplete,
            Frame::Malformed => FrameScan::Malformed,
        }
    }
}

/// Seen from `a` bytes back and then from `b` bytes further back is
/// seen from `a + b` bytes back.
pub proof fn lemma_after_twice(
    first: Seq<FieldModel>,
    a: int,
    second: Seq<FieldModel>,
    b: int,
    scan: FrameScan,
)
    ensures
        after(first, a, after(second, b, scan)) == after(first + second, a + b, scan),
{
    if let FrameScan::Frame { fields, len } = scan {
        assert(first + (second + fields) =~= (first + second) + fields);
    }
}

/// Reading on after the fields `first` and then after the fields
/// `second` is reading on after both.
pub proof fn lemma_and_then_twice(
    first: Seq<FieldModel>,
    second: Seq<FieldModel>,
    rest: Option<(Seq<FieldModel>, Seq<u8>)>,
)
    ensures
        and_then(first, and_then(second, rest)) == and_then(first + second, rest),
{
    if let Some((fields, _)) = rest {
        assert(first + (second + fields) =~= (first + second) + fields);
    }
}

/// Reads the frame that starts at the first line break of `s`.
pub fn read_frame(s: &[u8]) -> (frame: Frame)
    ensures
        frame.deep_view() == scan_frame(s@),
{
    let total = s.len();
    let start = match find_stop(s, false) {
        Some(i) => i + 2,
        None => { return Frame::Incomplete; },
    };
    let lines = slice_subrange(s, start, total);
    let mut fields: Vec<Field> = Vec::new();
    let mut pos: usize = 0;
    proof {
        assert(lines@.skip(0) =~= lines@);
        lemma_after_twice(Seq::empty(), 0, Seq::empty(), 0, scan_lines(lines@));
    }
    loop
        invariant
            pos <= lines@.len(),
            lines@ == s@.skip(start as int),
            2 <= start <= s@.len() == total,
            first_line_break(s@) == Some(start - 2),
            scan_lines(lines@) == after(
                fields.deep_view(),
                pos as int,
                scan_lines(lines@.skip(pos as int)),
            ),
        decreases lines@.len() - pos,
    {
        let here = slice_subrange(lines, pos, lines.len());
        proof {
            lemma_scan_line_len(here@);
        }
        match read_line(here) {
            Line::Pair { field, len } => {
                proof {
                    assert(here@.skip(len as int) =~= lines@.skip(pos + len));
                    lemma_after_twice(
                        fields.deep_view(),
                        pos as int,
                        seq![field.deep_view()],
                        len as int,
                        scan_lines(lines@.skip(pos + len)),
                    );
                }
                let ghost before = fields.deep_view();
                fields.push(field);
                assert(fields.deep_view() =~= before + seq![field.deep_view()]);
                pos = pos + len;
            },
            Line::Last { field, len } => {
                let ghost before = fields.deep_view();
                fields.push(field);
                assert(fields.deep_view() =~= before + seq![field.deep_view()]);
                return Frame::Whole { fields, len: start + pos + len };
            },
            Line::Incomplete => {
                return Frame::Incomplete;
            },
            Line::Malformed => {
                return Frame::Malformed;
            },
        }
    }
}

/// Splits a buffer into the fields of the whole frames in it, in the
/// order in which they arrived, and the bytes that follow the last whole
/// frame: what is there of the next one. The fields of one frame end with
/// its `Checksum` field. A malformed line refuses the whole buffer.
///
/// Checksums are not verified here.
pub fn parse<'a>(buffer: &'a [u8]) -> (r: Result<(Vec<Field>, &'a [u8]), VeError>)
    ensures
        match r {
            Ok((fields, remainder)) => tokens(buffer@) == Some((fields.deep_view(), remainder@)),
            Err(e) => tokens(buffer@) is None && e@ == ErrorModel::MalformedFrame,
        },
{
    let mut fields: Vec<Field> = Vec::new();
    let mut pos: usize = 0;
    proof {
        assert(buffer@.skip(0) =~= buffer@);
        lemma_and_then_twice(Seq::empty(), Seq::empty(), tokens(buffer@));
    }
    loop
        invariant
            pos <= buffer@.len(),
            tokens(buffer@) == and_then(fields.deep_view(), tokens(buffer@.skip(pos as int))),
        decreases buffer@.len() - pos,
    {
        let rest = slice_subrange(buffer, pos, buffer.len());
        proof {
            lemma_scan_frame_len(rest@);
        }
        match read_frame(rest) {
            Frame::Whole { fields: mut found, len } => {
                proof {
                    assert(rest@.skip(len as int) =~= buffer@.skip(pos + len));
                    lemma_and_then_twice(
                        fields.deep_view(),
                        found.deep_view(),
                        tokens(buffer@.skip(pos + len)),
                    );
                }
                fields.append(&mut found);
                pos = pos + len;
            },
            Frame::Incomplete => {
                return Ok((fields, rest));
            },
            Frame::Malformed => {
                return Err(VeError::MalformedFrame);
            },
        }
    }
}

} // verus!
