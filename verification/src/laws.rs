//! Stream-level laws of the decoder: bounds on what one decode consumes, the
//! agreement between the records sequential iteration produces and the
//! matched block-delimiter pairs, the irrelevance of position and idle state
//! outside a block, and the record-for-record correspondence between the
//! offset index and sequential iteration.

use vstd::prelude::*;
use crate::cursor::{line_at, line_end};
use crate::decimal::{find_byte, lemma_find_byte};
use crate::mgf::{
    DecodeOutcome, MGFParserState, apply_entries, decode_from, header_kv_step, headers_state_step,
    index_of, is_peak_candidate, peak_fields_ok, peaks_state_step, scan_entries,
};
use crate::offset_index::{index_find, index_insert, keys_unique, lemma_index_find};
use crate::spectrum::{DescModel, RecordModel, default_desc, default_record};
use crate::text::{begin_ions, end_ions, has_prefix, title_key, title_prefix, trim_spec};
use crate::cursor::lemma_find_byte_at;

verus! {

/// What one decode call consumes: never moves backwards, never past the end,
/// and always forward when data remains.
pub proof fn lemma_decode_end_bounds(
    data: Seq<u8>,
    pos: int,
    state: MGFParserState,
    m: RecordModel,
)
    requires
        0 <= pos <= data.len(),
        state != MGFParserState::Error,
    ensures
        pos <= decode_from(data, pos, state, m).end <= data.len(),
        pos < data.len() ==> decode_from(data, pos, state, m).end > pos,
    decreases data.len() - pos,
{
    if pos < data.len() {
        let pos2 = line_end(data, pos);
        let t = trim_spec(line_at(data, pos));
        assert(pos < pos2 <= data.len());
        if t.len() == 0 {
            lemma_decode_end_bounds(data, pos2, state, m);
        } else {
            match state {
                MGFParserState::ScanHeaders => {
                    let st = headers_state_step(t, m.desc, m.peaks);
                    let m2 = RecordModel { desc: st.desc, peaks: st.peaks };
                    if st.state != MGFParserState::Error && st.state != MGFParserState::Between {
                        lemma_decode_end_bounds(data, pos2, st.state, m2);
                    }
                },
                MGFParserState::Peaks => {
                    let st = peaks_state_step(t, m.peaks);
                    let m2 = RecordModel { desc: m.desc, peaks: st.peaks };
                    if st.state != MGFParserState::Error && st.state != MGFParserState::Between {
                        lemma_decode_end_bounds(data, pos2, st.state, m2);
                    }
                },
                MGFParserState::Error => {},
                MGFParserState::Done => {
                    lemma_decode_end_bounds(data, pos2, MGFParserState::Done, m);
                },
                _ => {
                    if t == begin_ions() {
                        lemma_decode_end_bounds(data, pos2, MGFParserState::ScanHeaders, m);
                    } else {
                        lemma_decode_end_bounds(data, pos2, state, m);
                    }
                },
            }
        }
    }
}

/// How many matched `BEGIN IONS`/`END IONS` pairs open and close from `pos`
/// on, `in_block` saying whether a block is already open.
pub open spec fn pair_count(data: Seq<u8>, pos: int, in_block: bool) -> nat
    decreases data.len() - pos,
{
    if pos < 0 || pos >= data.len() {
        0
    } else {
        let pos2 = line_end(data, pos);
        let t = trim_spec(line_at(data, pos));
        if t == begin_ions() && !in_block {
            pair_count(data, pos2, true)
        } else if t == end_ions() && in_block {
            1 + pair_count(data, pos2, false)
        } else {
            pair_count(data, pos2, in_block)
        }
    }
}

/// The opening token is not a peak candidate, not the closing token, and
/// holds no `=`.
proof fn lemma_begin_token_shape()
    ensures
        find_byte(begin_ions(), 0x3d) == begin_ions().len(),
        begin_ions()[0] == 0x42,
        begin_ions() != end_ions(),
{
    lemma_find_byte(begin_ions(), 0x3d);
    assert forall|i: int| 0 <= i < begin_ions().len() implies begin_ions()[i] != 0x3d by {
        assert(begin_ions()[0] == 0x42 && begin_ions()[1] == 0x45 && begin_ions()[2] == 0x47
            && begin_ions()[3] == 0x49 && begin_ions()[4] == 0x4e && begin_ions()[5] == 0x20
            && begin_ions()[6] == 0x49 && begin_ions()[7] == 0x4f && begin_ions()[8] == 0x4e
            && begin_ions()[9] == 0x53);
    }
    if find_byte(begin_ions(), 0x3d) < begin_ions().len() {
        assert(begin_ions()[find_byte(begin_ions(), 0x3d)] == 0x3d);
    }
    assert(begin_ions().len() != end_ions().len());
}

/// One decode call against the pair count: completing a record closes
/// exactly one pair, and running out of data closes none.
proof fn lemma_decode_pairs(data: Seq<u8>, pos: int, state: MGFParserState, m: RecordModel)
    requires
        0 <= pos <= data.len(),
        state == MGFParserState::Start || state == MGFParserState::Between || state
            == MGFParserState::ScanHeaders || state == MGFParserState::Peaks,
    ensures
        ({
            let out = decode_from(data, pos, state, m);
            let in_block = state == MGFParserState::ScanHeaders || state == MGFParserState::Peaks;
            &&& (out.state == MGFParserState::Between ==> pair_count(data, pos, in_block) == 1
                + pair_count(data, out.end, false))
            &&& (out.state == MGFParserState::Done ==> pair_count(data, pos, in_block) == 0)
        }),
    decreases data.len() - pos,
{
    lemma_begin_token_shape();
    if pos < data.len() {
        let pos2 = line_end(data, pos);
        let t = trim_spec(line_at(data, pos));
        if t.len() == 0 {
            assert(t != begin_ions() && t != end_ions());
            lemma_decode_pairs(data, pos2, state, m);
        } else {
            match state {
                MGFParserState::ScanHeaders => {
                    let st = headers_state_step(t, m.desc, m.peaks);
                    let m2 = RecordModel { desc: st.desc, peaks: st.peaks };
                    if st.state == MGFParserState::Between {
                        assert(t == end_ions());
                    } else if st.state != MGFParserState::Error {
                        assert(t != end_ions());
                        assert(t != begin_ions());
                        lemma_decode_pairs(data, pos2, st.state, m2);
                    }
                },
                MGFParserState::Peaks => {
                    let st = peaks_state_step(t, m.peaks);
                    let m2 = RecordModel { desc: m.desc, peaks: st.peaks };
                    if st.state == MGFParserState::Between {
                        assert(t == end_ions());
                    } else if st.state != MGFParserState::Error {
                        assert(t != end_ions());
                        assert(t != begin_ions());
                        lemma_decode_pairs(data, pos2, st.state, m2);
                    }
                },
                _ => {
                    if t == begin_ions() {
                        lemma_decode_pairs(data, pos2, MGFParserState::ScanHeaders, m);
                    } else {
                        lemma_decode_pairs(data, pos2, state, m);
                    }
                },
            }
        }
    }
}

/// The next position sequential iteration continues from: where the decode
/// ended, held inside the data and strictly forward.
pub open spec fn next_read_pos(data: Seq<u8>, pos: int, end: int) -> int {
    vstd::math::min(vstd::math::max(end, pos + 1), data.len() as int)
}

/// How many records repeated `read_next` calls produce from `pos` in
/// `state`: one per decode that consumes bytes without faulting, until the
/// data ends or a fault stops the iteration.
pub open spec fn seq_record_count(data: Seq<u8>, pos: int, state: MGFParserState) -> nat
    decreases data.len() - pos,
{
    if pos < 0 || pos >= data.len() {
        0
    } else {
        let out = decode_from(data, pos, state, default_record());
        if out.state == MGFParserState::Error || out.end == pos {
            0
        } else {
            1 + seq_record_count(data, next_read_pos(data, pos, out.end), out.state)
        }
    }
}

/// Sequential iteration from `pos` decodes record after record and stops
/// exactly at the end of the data, never faulting and never returning a
/// trailing partial record.
pub open spec fn well_formed_from(data: Seq<u8>, pos: int, state: MGFParserState) -> bool
    decreases data.len() - pos,
{
    if pos < 0 || pos >= data.len() {
        true
    } else {
        let out = decode_from(data, pos, state, default_record());
        if out.state == MGFParserState::Error {
            false
        } else if out.state == MGFParserState::Between {
            well_formed_from(data, next_read_pos(data, pos, out.end), MGFParserState::Between)
        } else {
            out.end == pos
        }
    }
}

/// A well-formed input as sequential iteration sees it from the beginning.
pub open spec fn well_formed(data: Seq<u8>) -> bool {
    well_formed_from(data, 0, MGFParserState::Start)
}

proof fn lemma_wf_count(data: Seq<u8>, pos: int, state: MGFParserState)
    requires
        0 <= pos <= data.len(),
        state == MGFParserState::Start || state == MGFParserState::Between,
        well_formed_from(data, pos, state),
    ensures
        seq_record_count(data, pos, state) == pair_count(data, pos, false),
    decreases data.len() - pos,
{
    if pos < data.len() {
        let out = decode_from(data, pos, state, default_record());
        lemma_decode_end_bounds(data, pos, state, default_record());
        lemma_decode_pairs(data, pos, state, default_record());
        if out.state == MGFParserState::Between {
            assert(next_read_pos(data, pos, out.end) == out.end);
            lemma_wf_count(data, out.end, MGFParserState::Between);
        } else {
            assert(out.state == MGFParserState::Done);
            assert(out.end == pos);
            assert(out.end > pos);
            assert(false);
        }
    }
}

/// The position of the first block-opening line at or after `pos`, or the
/// end of the data if none follows.
pub open spec fn find_block_start(data: Seq<u8>, pos: int) -> int
    decreases data.len() - pos,
{
    if pos < 0 || pos >= data.len() {
        data.len() as int
    } else if trim_spec(line_at(data, pos)) == begin_ions() {
        pos
    } else {
        find_block_start(data, line_end(data, pos))
    }
}

/// Outside a block the three idle states decode identically: one record read
/// from `Start`, `FileHeader` or `Between` yields the same outcome.
pub proof fn lemma_idle_states_agree(
    data: Seq<u8>,
    pos: int,
    s1: MGFParserState,
    s2: MGFParserState,
    m: RecordModel,
)
    requires
        0 <= pos <= data.len(),
        s1 == MGFParserState::Start || s1 == MGFParserState::FileHeader || s1
            == MGFParserState::Between,
        s2 == MGFParserState::Start || s2 == MGFParserState::FileHeader || s2
            == MGFParserState::Between,
    ensures
        decode_from(data, pos, s1, m) == decode_from(data, pos, s2, m),
    decreases data.len() - pos,
{
    if pos < data.len() {
        let pos2 = line_end(data, pos);
        let t = trim_spec(line_at(data, pos));
        if t.len() == 0 || t != begin_ions() {
            lemma_idle_states_agree(data, pos2, s1, s2, m);
        }
    }
}

/// Lines before the next block-opening line are ignored: decoding from
/// anywhere in the gap yields the same record as decoding from the opening
/// line itself. This is what lets an indexed offset stand in for the
/// sequential read position.
pub proof fn lemma_decode_skips_preamble(
    data: Seq<u8>,
    pos: int,
    state: MGFParserState,
    m: RecordModel,
)
    requires
        0 <= pos <= data.len(),
        state == MGFParserState::Start || state == MGFParserState::FileHeader || state
            == MGFParserState::Between,
    ensures
        ({
            let q = find_block_start(data, pos);
            &&& pos <= q <= data.len()
            &&& (q < data.len() ==> decode_from(data, pos, state, m) == decode_from(
                data,
                q,
                MGFParserState::Start,
                m,
            ))
        }),
    decreases data.len() - pos,
{
    if pos < data.len() {
        let pos2 = line_end(data, pos);
        let t = trim_spec(line_at(data, pos));
        if t == begin_ions() {
            lemma_idle_states_agree(data, pos, state, MGFParserState::Start, m);
        } else {
            assert(pos < pos2 <= data.len());
            lemma_decode_skips_preamble(data, pos2, state, m);
        }
    }
}

/// For a well-formed input, the number of records sequential iteration
/// produces equals the number of matched `BEGIN IONS`/`END IONS` pairs.
pub proof fn lemma_sequential_count_is_pair_count(data: Seq<u8>)
    requires
        well_formed(data),
    ensures
        seq_record_count(data, 0, MGFParserState::Start) == pair_count(data, 0, false),
{
    lemma_wf_count(data, 0, MGFParserState::Start);
}

/// The raw and the trimmed form of a line agree on the two tokens the index
/// builder matches by raw prefix: a canonical line starts with `BEGIN IONS`
/// exactly when it trims to the opening token, and starts with `TITLE=`
/// exactly when its trimmed form does.
pub open spec fn line_agrees(l: Seq<u8>) -> bool {
    &&& (has_prefix(l, begin_ions()) <==> trim_spec(l) == begin_ions())
    &&& (has_prefix(l, title_prefix()) <==> has_prefix(trim_spec(l), title_prefix()))
}

/// A trimmed line is an identifier header.
pub open spec fn is_title_line(t: Seq<u8>) -> bool {
    has_prefix(t, title_prefix())
}

/// A trimmed header line other than the identifier decodes successfully.
pub open spec fn kv_line_ok(t: Seq<u8>) -> bool {
    let e = find_byte(t, 0x3d);
    e < t.len() && header_kv_step(t.take(e), t.skip(e + 1), default_desc()) is Some
}

/// Where the canonical-layout walk stands: outside any block, among the
/// headers of a block, or among its peaks; `seen` records whether the block's
/// one identifier header has been read yet.
pub ghost enum CanonPhase {
    Out,
    Headers { seen: bool },
    Peaks { seen: bool },
}

/// Canonical layout from `pos` on: tokens are written plainly (no leading
/// whitespace, nothing after them on the line), every block carries exactly
/// one identifier header, placed before its peaks, every block is closed,
/// and no line inside a block is malformed. Lines outside blocks are free.
pub open spec fn canon_from(data: Seq<u8>, pos: int, ph: CanonPhase) -> bool
    decreases data.len() - pos,
{
    if pos < 0 {
        false
    } else if pos >= data.len() {
        ph is Out
    } else {
        let l = line_at(data, pos);
        let t = trim_spec(l);
        let pos2 = line_end(data, pos);
        &&& line_agrees(l)
        &&& match ph {
            CanonPhase::Out => {
                if t.len() == 0 {
                    canon_from(data, pos2, CanonPhase::Out)
                } else if t == begin_ions() {
                    canon_from(data, pos2, CanonPhase::Headers { seen: false })
                } else {
                    canon_from(data, pos2, CanonPhase::Out)
                }
            },
            CanonPhase::Headers { seen } => {
                if t.len() == 0 {
                    canon_from(data, pos2, ph)
                } else if t == end_ions() {
                    seen && canon_from(data, pos2, CanonPhase::Out)
                } else if is_peak_candidate(t) {
                    peak_fields_ok(t) && canon_from(data, pos2, CanonPhase::Peaks { seen })
                } else if is_title_line(t) {
                    !seen && canon_from(data, pos2, CanonPhase::Headers { seen: true })
                } else {
                    kv_line_ok(t) && canon_from(data, pos2, ph)
                }
            },
            CanonPhase::Peaks { seen } => {
                if t.len() == 0 {
                    canon_from(data, pos2, ph)
                } else if t == end_ions() {
                    seen && canon_from(data, pos2, CanonPhase::Out)
                } else {
                    is_peak_candidate(t) && peak_fields_ok(t) && canon_from(data, pos2, ph)
                }
            },
        }
    }
}

/// The records repeated `read_next` calls produce from `pos` in `state`, in
/// order, each decoded into a fresh default record.
pub open spec fn seq_records(data: Seq<u8>, pos: int, state: MGFParserState) -> Seq<RecordModel>
    decreases data.len() - pos,
{
    if pos < 0 || pos >= data.len() {
        Seq::empty()
    } else {
        let out = decode_from(data, pos, state, default_record());
        if out.state == MGFParserState::Error || out.end == pos {
            Seq::empty()
        } else {
            seq![out.model] + seq_records(data, next_read_pos(data, pos, out.end), out.state)
        }
    }
}

/// A trimmed line is an identifier header exactly when splitting it at its
/// first `=` yields the identifier key.
proof fn lemma_title_kv(t: Seq<u8>)
    ensures
        is_title_line(t) <==> (find_byte(t, 0x3d) < t.len() && t.take(find_byte(t, 0x3d))
            == title_key()),
        is_title_line(t) ==> find_byte(t, 0x3d) == 5 && t.skip(find_byte(t, 0x3d) + 1) == t.skip(
            6,
        ),
{
    lemma_find_byte(t, 0x3d);
    if is_title_line(t) {
        assert forall|i: int| 0 <= i < 5 implies t[i] != 0x3d by {
            assert(t.take(6)[i] == t[i]);
            assert(title_prefix()[i] == t[i]);
        }
        assert(t.take(6)[5] == t[5]);
        assert(t[5] == 0x3d);
        lemma_find_byte_at(t, 0x3d, 5);
        assert(t.take(5) =~= title_key());
    } else {
        let e = find_byte(t, 0x3d);
        if e < t.len() && t.take(e) == title_key() {
            assert(t.take(e).len() == 5);
            assert(e == 5);
            assert(t[5] == 0x3d);
            assert(t.len() >= 6);
            assert forall|i: int| 0 <= i < 6 implies t.take(6)[i] == title_prefix()[i] by {
                if i < 5 {
                    assert(t.take(5)[i] == t[i]);
                    assert(title_key()[i] == t[i]);
                }
            }
            assert(t.take(6) =~= title_prefix());
            assert(false);
        }
    }
}

/// The closing token is not the opening token and neither is an identifier
/// header or a peak candidate.
proof fn lemma_token_shapes()
    ensures
        end_ions() != begin_ions(),
        !is_title_line(end_ions()),
        !is_title_line(begin_ions()),
        !is_peak_candidate(end_ions()),
        !is_peak_candidate(begin_ions()),
        end_ions()[0] == 0x45,
        begin_ions()[0] == 0x42,
        title_prefix()[0] == 0x54,
{
    assert(end_ions().len() != begin_ions().len());
    if is_title_line(end_ions()) {
        assert(end_ions().take(6)[0] == end_ions()[0]);
        assert(title_prefix()[0] == end_ions()[0]);
    }
    if is_title_line(begin_ions()) {
        assert(begin_ions().take(6)[0] == begin_ions()[0]);
        assert(title_prefix()[0] == begin_ions()[0]);
    }
}

/// Success of one `KEY=VALUE` header does not depend on the description it
/// updates.
proof fn lemma_kv_some_any(key: Seq<u8>, value: Seq<u8>, d1: DescModel, d2: DescModel)
    ensures
        header_kv_step(key, value, d1) is Some <==> header_kv_step(key, value, d2) is Some,
{
}

/// Inside a canonical block the decoder completes the record, the pre-scan
/// contributes exactly the block's identifier entry (already emitted when
/// `seen`), and the record's identifier is the one the block's single
/// identifier header wrote.
proof fn lemma_block_correspondence(
    data: Seq<u8>,
    pos: int,
    state: MGFParserState,
    m: RecordModel,
    seen: bool,
    l0: int,
)
    requires
        0 <= pos <= data.len(),
        state == MGFParserState::ScanHeaders || state == MGFParserState::Peaks,
        canon_from(
            data,
            pos,
            if state == MGFParserState::ScanHeaders {
                CanonPhase::Headers { seen }
            } else {
                CanonPhase::Peaks { seen }
            },
        ),
    ensures
        ({
            let out = decode_from(data, pos, state, m);
            &&& out.state == MGFParserState::Between
            &&& pos < out.end <= data.len()
            &&& canon_from(data, out.end, CanonPhase::Out)
            &&& (seen ==> out.model.desc.id == m.desc.id)
            &&& (seen ==> scan_entries(data, pos, false, 0) =~= scan_entries(
                data,
                out.end,
                false,
                0,
            ))
            &&& (!seen ==> scan_entries(data, pos, true, l0) =~= seq![
                (out.model.desc.id, l0 as u64),
            ] + scan_entries(data, out.end, false, 0))
        }),
    decreases data.len() - pos,
{
    lemma_token_shapes();
    lemma_begin_token_shape();
    if pos >= data.len() {
        // canonical layout forbids an unclosed block
        assert(false);
    } else {
        let l = line_at(data, pos);
        let t = trim_spec(l);
        let pos2 = line_end(data, pos);
        assert(pos < pos2 <= data.len());
        if t.len() == 0 {
            assert(!has_prefix(l, begin_ions()));
            assert(!has_prefix(l, title_prefix()));
            lemma_block_correspondence(data, pos2, state, m, seen, l0);
        } else if t == end_ions() {
            assert(seen);
            assert(!has_prefix(l, begin_ions()));
            assert(!has_prefix(l, title_prefix()));
        } else if state == MGFParserState::ScanHeaders {
            let st = headers_state_step(t, m.desc, m.peaks);
            let m2 = RecordModel { desc: st.desc, peaks: st.peaks };
            lemma_title_kv(t);
            if is_peak_candidate(t) {
                assert(!is_title_line(t));
                assert(!has_prefix(l, begin_ions()));
                assert(!has_prefix(l, title_prefix()));
                assert(st.state == MGFParserState::Peaks);
                assert(m2.desc == m.desc);
                lemma_block_correspondence(data, pos2, MGFParserState::Peaks, m2, seen, l0);
            } else if is_title_line(t) {
                assert(!seen);
                assert(has_prefix(l, title_prefix()));
                assert(!has_prefix(l, begin_ions()));
                assert(st.state == MGFParserState::ScanHeaders);
                assert(m2.desc.id == t.skip(6));
                lemma_block_correspondence(data, pos2, MGFParserState::ScanHeaders, m2, true, 0);
                let out = decode_from(data, pos, MGFParserState::ScanHeaders, m);
                assert(out == decode_from(data, pos2, MGFParserState::ScanHeaders, m2));
                assert(out.model.desc.id == t.skip(6));
                let e = (trim_spec(l).skip(6), l0 as u64);
                assert(scan_entries(data, pos, true, l0) =~= seq![e] + scan_entries(
                    data,
                    pos2,
                    false,
                    0,
                ));
                assert(scan_entries(data, pos, true, l0) =~= seq![
                    (out.model.desc.id, l0 as u64),
                ] + scan_entries(data, out.end, false, 0));
            } else {
                // an ordinary KEY=VALUE header
                assert(kv_line_ok(t));
                assert(t != begin_ions());
                assert(!has_prefix(l, begin_ions()));
                assert(!has_prefix(l, title_prefix()));
                let e = find_byte(t, 0x3d);
                lemma_kv_some_any(t.take(e), t.skip(e + 1), default_desc(), m.desc);
                assert(st.state == MGFParserState::ScanHeaders);
                assert(t.take(e) != title_key());
                assert(m2.desc.id == m.desc.id);
                lemma_block_correspondence(data, pos2, MGFParserState::ScanHeaders, m2, seen, l0);
            }
        } else {
            // among the peaks
            assert(is_peak_candidate(t) && peak_fields_ok(t));
            assert(!is_title_line(t));
            assert(!has_prefix(l, begin_ions()));
            assert(!has_prefix(l, title_prefix()));
            let st = peaks_state_step(t, m.peaks);
            let m2 = RecordModel { desc: m.desc, peaks: st.peaks };
            assert(st.state == MGFParserState::Peaks);
            lemma_block_correspondence(data, pos2, MGFParserState::Peaks, m2, seen, l0);
        }
    }
}


/// What the pre-scan finds from an out-of-block position corresponds record
/// for record to what sequential iteration decodes: same count, the entry
/// key is the record's identifier, and decoding at the entry's offset yields
/// exactly that record.
proof fn lemma_stream_correspondence(data: Seq<u8>, pos: int, l0: int)
    requires
        0 <= pos <= data.len() <= usize::MAX,
        canon_from(data, pos, CanonPhase::Out),
        well_formed_from(data, pos, MGFParserState::Between),
    ensures
        ({
            let entries = scan_entries(data, pos, false, l0);
            let recs = seq_records(data, pos, MGFParserState::Between);
            &&& entries.len() == recs.len()
            &&& forall|k: int|
                0 <= k < entries.len() ==> (#[trigger] entries[k]).0 == recs[k].desc.id
            &&& forall|k: int|
                0 <= k < entries.len() ==> {
                    let off = (#[trigger] entries[k]).1 as int;
                    &&& 0 <= off < data.len()
                    &&& decode_from(data, off, MGFParserState::Start, default_record()).state
                        == MGFParserState::Between
                    &&& decode_from(data, off, MGFParserState::Start, default_record()).end > off
                    &&& decode_from(data, off, MGFParserState::Start, default_record()).model
                        == recs[k]
                }
        }),
    decreases data.len() - pos,
{
    lemma_token_shapes();
    if pos < data.len() {
        let l = line_at(data, pos);
        let t = trim_spec(l);
        let pos2 = line_end(data, pos);
        assert(pos < pos2 <= data.len());
        if t.len() != 0 && t == begin_ions() {
            assert(has_prefix(l, begin_ions()));
            lemma_block_correspondence(
                data,
                pos2,
                MGFParserState::ScanHeaders,
                default_record(),
                false,
                pos,
            );
            let out = decode_from(data, pos2, MGFParserState::ScanHeaders, default_record());
            assert(decode_from(data, pos, MGFParserState::Between, default_record()) == out);
            assert(pos < out.end <= data.len());
            assert(next_read_pos(data, pos, out.end) == out.end);
            assert(well_formed_from(data, out.end, MGFParserState::Between));
            lemma_stream_correspondence(data, out.end, 0);
            let e0 = (out.model.desc.id, pos as u64);
            let tail_entries = scan_entries(data, out.end, false, 0);
            let entries = scan_entries(data, pos, false, l0);
            assert(entries =~= seq![e0] + tail_entries);
            let tail_recs = seq_records(data, out.end, MGFParserState::Between);
            let recs = seq_records(data, pos, MGFParserState::Between);
            assert(recs =~= seq![out.model] + tail_recs);
            lemma_idle_states_agree(
                data,
                pos,
                MGFParserState::Start,
                MGFParserState::Between,
                default_record(),
            );
            assert forall|k: int|
                0 <= k < entries.len() implies (#[trigger] entries[k]).0 == recs[k].desc.id by {
                if k > 0 {
                    assert(entries[k] == tail_entries[k - 1]);
                    assert(recs[k] == tail_recs[k - 1]);
                }
            }
            assert forall|k: int|
                0 <= k < entries.len() implies {
                    let off = (#[trigger] entries[k]).1 as int;
                    &&& 0 <= off < data.len()
                    &&& decode_from(data, off, MGFParserState::Start, default_record()).state
                        == MGFParserState::Between
                    &&& decode_from(data, off, MGFParserState::Start, default_record()).end > off
                    &&& decode_from(data, off, MGFParserState::Start, default_record()).model
                        == recs[k]
                } by {
                if k == 0 {
                    assert(entries[0] == e0);
                    assert(e0.1 as int == pos);
                    assert(recs[0] == out.model);
                } else {
                    assert(entries[k] == tail_entries[k - 1]);
                    assert(recs[k] == tail_recs[k - 1]);
                }
            }
        } else {
            // a blank or ignored line outside any block
            assert(!has_prefix(l, begin_ions()));
            let out = decode_from(data, pos, MGFParserState::Between, default_record());
            assert(out == decode_from(data, pos2, MGFParserState::Between, default_record()));
            lemma_decode_end_bounds(data, pos, MGFParserState::Between, default_record());
            assert(out.state != MGFParserState::Error);
            if out.state == MGFParserState::Done {
                assert(out.end == pos);
                assert(out.end > pos);
                assert(false);
            }
            assert(out.state == MGFParserState::Between);
            lemma_decode_end_bounds(data, pos2, MGFParserState::Between, default_record());
            assert(out.end >= pos2);
            assert(next_read_pos(data, pos, out.end) == next_read_pos(data, pos2, out.end));
            assert(well_formed_from(data, pos2, MGFParserState::Between));
            assert(scan_entries(data, pos, false, l0) =~= scan_entries(data, pos2, false, l0));
            assert(seq_records(data, pos, MGFParserState::Between) =~= seq_records(
                data,
                pos2,
                MGFParserState::Between,
            ));
            lemma_stream_correspondence(data, pos2, l0);
        }
    }
}

/// Applying entries with pairwise-distinct identifiers to an index whose own
/// identifiers are distinct and disjoint from them appends them in order.
proof fn lemma_apply_distinct(acc: Seq<(Seq<u8>, u64)>, s: Seq<(Seq<u8>, u64)>)
    requires
        keys_unique(acc),
        keys_unique(s),
        forall|i: int, j: int|
            0 <= i < acc.len() && 0 <= j < s.len() ==> acc[i].0 != s[j].0,
    ensures
        apply_entries(acc, s) =~= acc + s,
    decreases s.len(),
{
    if s.len() == 0 {
        assert(apply_entries(acc, s) =~= acc + s);
    } else {
        lemma_index_find(acc, s[0].0);
        if index_find(acc, s[0].0) < acc.len() {
            assert(acc[index_find(acc, s[0].0)].0 == s[0].0);
            assert(false);
        }
        assert(index_insert(acc, s[0].0, s[0].1) == acc.push((s[0].0, s[0].1)));
        let acc2 = acc.push((s[0].0, s[0].1));
        assert(keys_unique(acc2)) by {
            assert forall|i: int, j: int|
                0 <= i < j < acc2.len() implies acc2[i].0 != acc2[j].0 by {
                if j < acc.len() {
                    assert(acc[i].0 != acc[j].0);
                } else {
                    assert(acc2[j] == (s[0].0, s[0].1));
                }
            }
        }
        assert(keys_unique(s.skip(1))) by {
            assert forall|i: int, j: int|
                0 <= i < j < s.skip(1).len() implies s.skip(1)[i].0 != s.skip(1)[j].0 by {
                assert(s.skip(1)[i] == s[i + 1]);
                assert(s.skip(1)[j] == s[j + 1]);
            }
        }
        assert forall|i: int, j: int|
            0 <= i < acc2.len() && 0 <= j < s.skip(1).len() implies acc2[i].0 != s.skip(1)[j].0 by {
            assert(s.skip(1)[j] == s[j + 1]);
            if i < acc.len() {
                assert(acc[i].0 != s[j + 1].0);
            } else {
                assert(acc2[i] == (s[0].0, s[0].1));
                assert(s[0].0 != s[j + 1].0);
            }
        }
        lemma_apply_distinct(acc2, s.skip(1));
        assert(acc2 + s.skip(1) =~= acc + s);
    }
}

/// Index-then-query equivalence. For a well-formed input in canonical layout
/// whose record identifiers are pairwise distinct, the offset index built by
/// the pre-scan has one entry per sequentially decoded record, in the same
/// order, keyed by that record's identifier; and decoding one record from
/// the indexed offset (as `get_spectrum_by_id` and `get_spectrum_by_index`
/// do) yields exactly the sequentially decoded record, whatever the query
/// order, since the index and the data are read-only to such queries.
pub proof fn lemma_index_matches_sequential(data: Seq<u8>)
    requires
        data.len() <= usize::MAX,
        canon_from(data, 0, CanonPhase::Out),
        well_formed(data),
        ({
            let recs = seq_records(data, 0, MGFParserState::Start);
            forall|j: int, k: int|
                0 <= j < k < recs.len() ==> (#[trigger] recs[j]).desc.id != (
                #[trigger] recs[k]).desc.id
        }),
    ensures
        ({
            let recs = seq_records(data, 0, MGFParserState::Start);
            let idx = index_of(data);
            &&& idx.len() == recs.len()
            &&& forall|k: int| 0 <= k < idx.len() ==> (#[trigger] idx[k]).0 == recs[k].desc.id
            &&& forall|k: int|
                0 <= k < idx.len() ==> {
                    let off = (#[trigger] idx[k]).1 as int;
                    &&& 0 <= off < data.len()
                    &&& decode_from(data, off, MGFParserState::Start, default_record()).state
                        == MGFParserState::Between
                    &&& decode_from(data, off, MGFParserState::Start, default_record()).end > off
                    &&& decode_from(data, off, MGFParserState::Start, default_record()).model
                        == recs[k]
                }
        }),
{
    lemma_idle_states_agree(
        data,
        0,
        MGFParserState::Start,
        MGFParserState::Between,
        default_record(),
    );
    let recs_s = seq_records(data, 0, MGFParserState::Start);
    let recs_b = seq_records(data, 0, MGFParserState::Between);
    assert(recs_s =~= recs_b);
    assert(well_formed_from(data, 0, MGFParserState::Between));
    lemma_stream_correspondence(data, 0, 0);
    let entries = scan_entries(data, 0, false, 0);
    assert(keys_unique(entries)) by {
        assert forall|i: int, j: int|
            0 <= i < j < entries.len() implies entries[i].0 != entries[j].0 by {
            assert(entries[i].0 == recs_b[i].desc.id);
            assert(entries[j].0 == recs_b[j].desc.id);
            assert(recs_s[i].desc.id != recs_s[j].desc.id);
        }
    }
    lemma_apply_distinct(Seq::<(Seq<u8>, u64)>::empty(), entries);
    assert(index_of(data) =~= entries);
}

} // verus!
