//! What the tokenizer does with whole frames, with frames that are cut,
//! and with a buffer that grows: the laws of streaming.
//!
//! A reader that gets its bytes in pieces keeps the remainder that
//! [`parse`](crate::parser::parse) hands back and puts it in front of the
//! next piece. The laws below say that nothing is lost or read twice that
//! way.

use crate::parser::{
    and_then, checksum_key, first_delimiter, first_line_break, first_stop_from,
    lemma_and_then_twice, lemma_first_stop, lemma_first_stop_is, lemma_no_stop,
    lemma_scan_frame_len, lemma_scan_line_len, scan_frame, scan_line, scan_lines, stop_at, tokens,
    FieldModel, FrameScan, LineScan, CR, LF, TAB,
};
use vstd::prelude::*;

verus! {

/// A scan that stops in a buffer stops at the same place when bytes are
/// added behind.
pub proof fn lemma_first_stop_stays(a: Seq<u8>, b: Seq<u8>, from: int, tabs: bool)
    requires
        0 <= from,
        first_stop_from(a, from, tabs) is Some,
    ensures
        first_stop_from(a + b, from, tabs) == first_stop_from(a, from, tabs),
{
    lemma_first_stop(a, from, tabs);
    let e = first_stop_from(a, from, tabs).unwrap();
    assert forall|j: int| from <= j < e implies !stop_at(a + b, j, tabs) by {
        assert(!stop_at(a, j, tabs));
    }
    lemma_first_stop_is(a + b, from, tabs, e);
}

/// A line that was read whole, or found malformed, is read the same when
/// bytes are added behind.
pub proof fn lemma_scan_line_stays(a: Seq<u8>, b: Seq<u8>)
    requires
        !(scan_line(a) is Incomplete),
    ensures
        scan_line(a + b) == scan_line(a),
{
    lemma_first_stop(a, 0, true);
    let t = first_delimiter(a).unwrap();
    lemma_first_stop_stays(a, b, 0, true);
    assert((a + b).take(t) =~= a.take(t));
    if a[t] == TAB && t != 0 && a.take(t) != checksum_key() {
        assert((a + b).skip(t + 1) =~= a.skip(t + 1) + b);
        lemma_first_stop(a.skip(t + 1), 0, false);
        lemma_first_stop_stays(a.skip(t + 1), b, 0, false);
        let e = first_line_break(a.skip(t + 1)).unwrap();
        assert((a + b).subrange(t + 1, t + 1 + e) =~= a.subrange(t + 1, t + 1 + e));
    }
}

/// The lines of a frame that were read to the end, or found malformed,
/// are read the same when bytes are added behind.
pub proof fn lemma_scan_lines_stays(a: Seq<u8>, b: Seq<u8>)
    requires
        !(scan_lines(a) is Incomplete),
    ensures
        scan_lines(a + b) == scan_lines(a),
    decreases a.len(),
{
    lemma_scan_line_len(a);
    lemma_scan_line_stays(a, b);
    match scan_line(a) {
        LineScan::Pair { field, len } => {
            assert((a + b).skip(len) =~= a.skip(len) + b);
            lemma_scan_lines_stays(a.skip(len), b);
        },
        _ => {},
    }
}

/// A frame that was read whole, or found malformed, is read the same
/// when bytes are added behind.
pub proof fn lemma_scan_frame_stays(a: Seq<u8>, b: Seq<u8>)
    requires
        !(scan_frame(a) is Incomplete),
    ensures
        scan_frame(a + b) == scan_frame(a),
{
    lemma_first_stop(a, 0, false);
    lemma_first_stop_stays(a, b, 0, false);
    let i = first_line_break(a).unwrap();
    assert((a + b).skip(i + 2) =~= a.skip(i + 2) + b);
    lemma_scan_lines_stays(a.skip(i + 2), b);
}

/// Resuming: where a buffer was split into fields and a remainder, the
/// buffer with more bytes behind it holds those fields, and then what
/// the remainder with the new bytes behind it holds. So a caller that
/// keeps the remainder and puts it in front of the next bytes reads what
/// a caller reads who had all the bytes at once, a malformed line
/// included.
pub proof fn lemma_resume(a: Seq<u8>, b: Seq<u8>)
    requires
        tokens(a) is Some,
    ensures
        tokens(a + b) == and_then(tokens(a).unwrap().0, tokens(tokens(a).unwrap().1 + b)),
    decreases a.len(),
{
    lemma_scan_frame_len(a);
    match scan_frame(a) {
        FrameScan::Frame { fields, len } => {
            lemma_scan_frame_stays(a, b);
            assert((a + b).skip(len) =~= a.skip(len) + b);
            lemma_resume(a.skip(len), b);
            let (more, remainder) = tokens(a.skip(len)).unwrap();
            lemma_and_then_twice(fields, more, tokens(remainder + b));
        },
        _ => {},
    }
}

/// The remainder is the end of the buffer, and no whole frame is left in
/// it: split again, it gives no field and itself.
pub proof fn lemma_remainder(s: Seq<u8>)
    requires
        tokens(s) is Some,
    ensures
        ({
            let remainder = tokens(s).unwrap().1;
            &&& remainder.len() <= s.len()
            &&& remainder == s.skip(s.len() - remainder.len())
            &&& tokens(remainder) == Some((Seq::<FieldModel>::empty(), remainder))
        }),
    decreases s.len(),
{
    lemma_scan_frame_len(s);
    match scan_frame(s) {
        FrameScan::Frame { fields, len } => {
            lemma_remainder(s.skip(len));
            let remainder = tokens(s.skip(len)).unwrap().1;
            assert(s.skip(len).skip(s.skip(len).len() - remainder.len()) =~= s.skip(
                s.len() - remainder.len(),
            ));
        },
        _ => {
            assert(s.skip(0) =~= s);
        },
    }
}

/// What a field that was read holds: a key that is not empty and has no
/// tab in it, and a value that is not empty.
pub open spec fn read_field(f: FieldModel) -> bool {
    &&& f.key.len() > 0
    &&& f.value.len() > 0
    &&& forall|i: int| 0 <= i < f.key.len() ==> f.key[i] != TAB
}

/// The field of a line that was read has a key and a value.
pub proof fn lemma_scan_line_reads_fields(s: Seq<u8>)
    ensures
        match scan_line(s) {
            LineScan::Pair { field, len } => read_field(field) && field.key != checksum_key(),
            LineScan::Last { field, len } => read_field(field) && field.key == checksum_key(),
            _ => true,
        },
{
    lemma_first_stop(s, 0, true);
    if let Some(t) = first_delimiter(s) {
        lemma_first_stop(s.skip(t + 1), 0, false);
        assert forall|i: int| 0 <= i < t implies s.take(t)[i] != TAB by {
            assert(!stop_at(s, i, true));
        }
    }
}

/// The fields of lines that were read have keys and values, and the last
/// of them, and no other, is a checksum.
pub proof fn lemma_scan_lines_reads_fields(s: Seq<u8>)
    ensures
        scan_lines(s) matches FrameScan::Frame { fields, len } ==> {
            &&& fields.len() > 0
            &&& forall|i: int| 0 <= i < fields.len() ==> read_field(#[trigger] fields[i])
            &&& forall|i: int|
                0 <= i < fields.len() ==> ((#[trigger] fields[i]).key == checksum_key() <==> i
                    == fields.len() - 1)
        },
    decreases s.len(),
{
    lemma_scan_line_len(s);
    lemma_scan_line_reads_fields(s);
    if let LineScan::Pair { field, len } = scan_line(s) {
        lemma_scan_lines_reads_fields(s.skip(len));
    }
}

/// Every field that the tokenizer hands out has a key that is not empty
/// and has no tab in it, and a value that is not empty.
pub proof fn lemma_tokens_read_fields(s: Seq<u8>)
    ensures
        tokens(s) matches Some((fields, _)) ==> forall|i: int|
            0 <= i < fields.len() ==> read_field(#[trigger] fields[i]),
    decreases s.len(),
{
    lemma_scan_frame_len(s);
    lemma_first_stop(s, 0, false);
    if let Some(start) = first_line_break(s) {
        lemma_scan_lines_reads_fields(s.skip(start + 2));
    }
    if let FrameScan::Frame { fields, len } = scan_frame(s) {
        lemma_tokens_read_fields(s.skip(len));
    }
}

/// A frame as a value: its lines in order, and the byte of its checksum.
pub struct FrameModel {
    pub lines: Seq<FieldModel>,
    pub checksum: u8,
}

/// A line that can be sent: the key is not empty, holds no tab and no
/// carriage return and is not `Checksum`; the value is not empty and
/// holds no carriage return.
pub open spec fn sendable_line(f: FieldModel) -> bool {
    &&& f.key.len() > 0
    &&& f.value.len() > 0
    &&& f.key != checksum_key()
    &&& forall|i: int| 0 <= i < f.key.len() ==> f.key[i] != TAB && f.key[i] != CR
    &&& forall|i: int| 0 <= i < f.value.len() ==> f.value[i] != CR
}

/// A frame that can be sent: each of its lines can. Its checksum may be
/// any byte.
pub open spec fn sendable_frame(frame: FrameModel) -> bool {
    forall|i: int| 0 <= i < frame.lines.len() ==> sendable_line(#[trigger] frame.lines[i])
}

/// Frames that can be sent.
pub open spec fn sendable_frames(frames: Seq<FrameModel>) -> bool {
    forall|i: int| 0 <= i < frames.len() ==> sendable_frame(#[trigger] frames[i])
}

/// The bytes of a line: key, tab, value, line break.
pub open spec fn line_bytes(f: FieldModel) -> Seq<u8> {
    f.key + seq![TAB] + f.value + seq![CR, LF]
}

/// The bytes of lines, one after the other.
pub open spec fn lines_bytes(lines: Seq<FieldModel>) -> Seq<u8>
    decreases lines.len(),
{
    if lines.len() == 0 {
        Seq::empty()
    } else {
        line_bytes(lines.first()) + lines_bytes(lines.drop_first())
    }
}

/// The bytes of the line that ends a frame: `Checksum`, tab, the byte.
pub open spec fn last_line_bytes(checksum: u8) -> Seq<u8> {
    checksum_key() + seq![TAB, checksum]
}

/// The bytes of a frame: a line break, the lines, the checksum.
pub open spec fn frame_bytes(frame: FrameModel) -> Seq<u8> {
    seq![CR, LF] + (lines_bytes(frame.lines) + last_line_bytes(frame.checksum))
}

/// The field that the line of the checksum is read as.
pub open spec fn checksum_field(checksum: u8) -> FieldModel {
    FieldModel { key: checksum_key(), value: seq![checksum] }
}

/// The fields of a frame: its lines, then its checksum.
pub open spec fn frame_fields(frame: FrameModel) -> Seq<FieldModel> {
    frame.lines.push(checksum_field(frame.checksum))
}

/// The bytes of frames sent back to back.
pub open spec fn frames_bytes(frames: Seq<FrameModel>) -> Seq<u8>
    decreases frames.len(),
{
    if frames.len() == 0 {
        Seq::empty()
    } else {
        frame_bytes(frames.first()) + frames_bytes(frames.drop_first())
    }
}

/// The fields of frames, in the order of the frames.
pub open spec fn frames_fields(frames: Seq<FrameModel>) -> Seq<FieldModel>
    decreases frames.len(),
{
    if frames.len() == 0 {
        Seq::empty()
    } else {
        frame_fields(frames.first()) + frames_fields(frames.drop_first())
    }
}

/// A line that can be sent is read back as it was, whatever follows it.
pub proof fn lemma_line_read_back(f: FieldModel, rest: Seq<u8>)
    requires
        sendable_line(f),
    ensures
        scan_line(line_bytes(f) + rest) == (LineScan::Pair {
            field: f,
            len: line_bytes(f).len() as int,
        }),
{
    let s = line_bytes(f) + rest;
    let t = f.key.len() as int;
    let n = f.value.len() as int;
    lemma_first_stop_is(s, 0, true, t);
    assert(s.take(t) =~= f.key);
    let v = s.skip(t + 1);
    lemma_first_stop_is(v, 0, false, n);
    assert(s.subrange(t + 1, t + 1 + n) =~= f.value);
}

/// The line of a checksum is read back as it was, whatever follows it.
pub proof fn lemma_last_line_read_back(checksum: u8, rest: Seq<u8>)
    ensures
        scan_line(last_line_bytes(checksum) + rest) == (LineScan::Last {
            field: checksum_field(checksum),
            len: 10,
        }),
{
    let s = last_line_bytes(checksum) + rest;
    lemma_first_stop_is(s, 0, true, 8);
    assert(s.take(8) =~= checksum_key());
}

/// The lines of a frame and its checksum are read back as they were,
/// whatever follows them.
pub proof fn lemma_lines_read_back(lines: Seq<FieldModel>, checksum: u8, rest: Seq<u8>)
    requires
        forall|i: int| 0 <= i < lines.len() ==> sendable_line(#[trigger] lines[i]),
    ensures
        scan_lines(lines_bytes(lines) + last_line_bytes(checksum) + rest) == (FrameScan::Frame {
            fields: lines.push(checksum_field(checksum)),
            len: (lines_bytes(lines).len() + 10) as int,
        }),
    decreases lines.len(),
{
    let s = lines_bytes(lines) + last_line_bytes(checksum) + rest;
    if lines.len() == 0 {
        lemma_last_line_read_back(checksum, rest);
        assert(lines.push(checksum_field(checksum)) =~= seq![checksum_field(checksum)]);
    } else {
        let f = lines.first();
        let tail = lines.drop_first();
        let behind = lines_bytes(tail) + last_line_bytes(checksum) + rest;
        assert(s =~= line_bytes(f) + behind);
        lemma_line_read_back(f, behind);
        let len = line_bytes(f).len() as int;
        assert(s.skip(len) =~= behind);
        lemma_lines_read_back(tail, checksum, rest);
        assert(seq![f] + tail.push(checksum_field(checksum)) =~= lines.push(
            checksum_field(checksum),
        ));
    }
}

/// A frame that can be sent is read back as it was, whatever follows it.
pub proof fn lemma_frame_read_back(frame: FrameModel, rest: Seq<u8>)
    requires
        sendable_frame(frame),
    ensures
        scan_frame(frame_bytes(frame) + rest) == (FrameScan::Frame {
            fields: frame_fields(frame),
            len: frame_bytes(frame).len() as int,
        }),
{
    let s = frame_bytes(frame) + rest;
    lemma_first_stop_is(s, 0, false, 0);
    assert(s.skip(2) =~= lines_bytes(frame.lines) + last_line_bytes(frame.checksum) + rest);
    lemma_lines_read_back(frame.lines, frame.checksum, rest);
}

/// Frames that can be sent, sent back to back, are read as their fields
/// in order, and reading goes on with what follows them.
pub proof fn lemma_frames_read_back(frames: Seq<FrameModel>, rest: Seq<u8>)
    requires
        sendable_frames(frames),
    ensures
        tokens(frames_bytes(frames) + rest) == and_then(frames_fields(frames), tokens(rest)),
    decreases frames.len(),
{
    if frames.len() > 0 {
        let s = frames_bytes(frames) + rest;
        let frame = frames.first();
        let tail = frames.drop_first();
        let behind = frames_bytes(tail) + rest;
        assert(s =~= frame_bytes(frame) + behind);
        lemma_frame_read_back(frame, behind);
        let len = frame_bytes(frame).len() as int;
        assert(s.skip(len) =~= behind);
        lemma_frames_read_back(tail, rest);
        lemma_and_then_twice(frame_fields(frame), frames_fields(tail), tokens(rest));
    }
}

/// Whole frames: a buffer that holds frames back to back and nothing
/// else is split into the fields of all of them, in order, and an empty
/// remainder.
pub proof fn lemma_whole_frames(frames: Seq<FrameModel>)
    requires
        sendable_frames(frames),
    ensures
        tokens(frames_bytes(frames)) == Some((frames_fields(frames), Seq::<u8>::empty())),
{
    let none = Seq::<u8>::empty();
    lemma_frames_read_back(frames, none);
    lemma_no_stop(none, 0, false);
}

/// A line that is cut before its end is not read yet.
pub proof fn lemma_cut_line(f: FieldModel, k: int)
    requires
        sendable_line(f),
        0 <= k < line_bytes(f).len(),
    ensures
        scan_line(line_bytes(f).take(k)) is Incomplete,
{
    let whole = line_bytes(f);
    let s = whole.take(k);
    let t = f.key.len() as int;
    let n = f.value.len() as int;
    if k <= t {
        lemma_no_stop(s, 0, true);
    } else {
        lemma_first_stop_is(s, 0, true, t);
        assert(s.take(t) =~= f.key);
        let v = s.skip(t + 1);
        lemma_no_stop(v, 0, false);
    }
}

/// The line of a checksum that is cut before its end is not read yet.
pub proof fn lemma_cut_last_line(checksum: u8, k: int)
    requires
        0 <= k < 10,
    ensures
        scan_line(last_line_bytes(checksum).take(k)) is Incomplete,
{
    let whole = last_line_bytes(checksum);
    let s = whole.take(k);
    if k <= 8 {
        lemma_no_stop(s, 0, true);
    } else {
        lemma_first_stop_is(s, 0, true, 8);
    }
}

/// The lines of a frame, cut anywhere before the end of the checksum, are
/// not read yet.
pub proof fn lemma_cut_lines(lines: Seq<FieldModel>, checksum: u8, k: int)
    requires
        forall|i: int| 0 <= i < lines.len() ==> sendable_line(#[trigger] lines[i]),
        0 <= k < lines_bytes(lines).len() + 10,
    ensures
        scan_lines((lines_bytes(lines) + last_line_bytes(checksum)).take(k)) is Incomplete,
    decreases lines.len(),
{
    let whole = lines_bytes(lines) + last_line_bytes(checksum);
    let s = whole.take(k);
    if lines.len() == 0 {
        lemma_cut_last_line(checksum, k);
    } else {
        let f = lines.first();
        let tail = lines.drop_first();
        let behind = lines_bytes(tail) + last_line_bytes(checksum);
        let len = line_bytes(f).len() as int;
        if k < len {
            assert(s =~= line_bytes(f).take(k));
            lemma_cut_line(f, k);
        } else {
            assert(s =~= line_bytes(f) + behind.take(k - len));
            lemma_line_read_back(f, behind.take(k - len));
            assert(s.skip(len) =~= behind.take(k - len));
            lemma_cut_lines(tail, checksum, k - len);
        }
    }
}

/// A frame that is cut before its end is not read yet.
pub proof fn lemma_cut_frame(frame: FrameModel, k: int)
    requires
        sendable_frame(frame),
        0 <= k < frame_bytes(frame).len(),
    ensures
        scan_frame(frame_bytes(frame).take(k)) is Incomplete,
{
    let whole = frame_bytes(frame);
    let s = whole.take(k);
    if k < 2 {
        lemma_no_stop(s, 0, false);
    } else {
        lemma_first_stop_is(s, 0, false, 0);
        assert(s.skip(2) =~= (lines_bytes(frame.lines) + last_line_bytes(frame.checksum)).take(
            k - 2,
        ));
        lemma_cut_lines(frame.lines, frame.checksum, k - 2);
    }
}

/// A cut frame: a buffer that holds whole frames and then the first `k`
/// bytes of one more, which is not whole, is split into the fields of
/// the whole frames and a remainder that is exactly those `k` bytes.
/// The remainder is empty only where `k` is zero.
pub proof fn lemma_cut_frames(frames: Seq<FrameModel>, next: FrameModel, k: int)
    requires
        sendable_frames(frames),
        sendable_frame(next),
        0 <= k < frame_bytes(next).len(),
    ensures
        tokens(frames_bytes(frames) + frame_bytes(next).take(k)) == Some(
            (frames_fields(frames), frame_bytes(next).take(k)),
        ),
{
    let cut = frame_bytes(next).take(k);
    lemma_frames_read_back(frames, cut);
    lemma_cut_frame(next, k);
}

/// A cut frame, resumed: the remainder of [`lemma_cut_frames`], with
/// the rest of the cut frame and then `more` bytes behind it, holds the
/// fields of that frame, and reading goes on with `more`.
pub proof fn lemma_cut_frame_resumed(next: FrameModel, k: int, more: Seq<u8>)
    requires
        sendable_frame(next),
        0 <= k < frame_bytes(next).len(),
    ensures
        tokens(frame_bytes(next).take(k) + (frame_bytes(next).skip(k) + more)) == and_then(
            frame_fields(next),
            tokens(more),
        ),
{
    let whole = frame_bytes(next);
    assert(whole.take(k) + (whole.skip(k) + more) =~= whole + more);
    lemma_frame_read_back(next, more);
    assert((whole + more).skip(whole.len() as int) =~= more);
}

} // verus!
