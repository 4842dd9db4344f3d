//! The line-driven state machine decoder for the MGF text format, the index
//! builder, and the random-access layer over both.

use vstd::prelude::*;
use crate::cursor::{ByteCursor, line_at, line_end, lemma_find_byte_at};
use crate::decimal::{
    FixedDecimal, dec_eq, dec_of, int_of, parse_decimal, parse_i32, find_byte, lemma_find_byte,
    is_ascii_digit,
};
use crate::offset_index::OffsetIndex;
use crate::spectrum::{
    CentroidPeak, CentroidSpectrum, DescModel, PeakSet, Precursor, RecordModel, SelectedIon,
    SpectrumDescription, default_record, set_first_time,
};
use crate::splitter::{PeakSplitter, peak_split};
use crate::text::{
    begin_ions, begin_ions_bytes, bytes_eq, end_ions, end_ions_bytes, has_prefix,
    lemma_trim_keeps_prefix, lower, pepmass_key, pepmass_key_bytes, rtinseconds_key,
    rtinseconds_key_bytes, split_whitespace, starts_with, sub_vec, title_key, title_key_bytes,
    title_prefix, title_prefix_bytes, to_lower, trim, trim_spec, views, ws_split,
};
use crate::offset_index::{index_find, index_insert};

verus! {

/// The decoder's control state, advanced one trimmed non-blank line at a
/// time.
#[derive(Debug, Clone, Copy, PartialEq, Eq, Structural)]
pub enum MGFParserState {
    Start,
    FileHeader,
    ScanHeaders,
    Peaks,
    Between,
    Done,
    Error,
}

/// The decode-time fault taxonomy. `TooManyColumnsForPeakLine` signals a
/// column-count violation on a peak line.
#[derive(Debug, Clone, Copy, PartialEq, Eq, Structural)]
pub enum MGFError {
    NoError,
    MalformedPeakLine,
    MalformedHeaderLine,
    TooManyColumnsForPeakLine,
    IOError,
}

/// A line whose first byte is an ASCII digit is tested as a peak line before
/// anything else.
pub open spec fn is_peak_candidate(line: Seq<u8>) -> bool {
    line.len() > 0 && is_ascii_digit(line[0])
}

/// A peak candidate parses when it has at least two fields and both m/z and
/// intensity are decimal numerals; further fields are ignored.
pub open spec fn peak_fields_ok(line: Seq<u8>) -> bool {
    let fields = peak_split(line);
    &&& fields.len() >= 2
    &&& dec_of(fields[0]) is Some
    &&& dec_of(fields[1]) is Some
}

/// The peak a well-formed peak line denotes.
pub open spec fn peak_of(line: Seq<u8>) -> CentroidPeak {
    let fields = peak_split(line);
    CentroidPeak { mz: dec_of(fields[0]).unwrap(), intensity: dec_of(fields[1]).unwrap() }
}

/// The fault a malformed peak candidate raises.
pub open spec fn peak_err(line: Seq<u8>) -> MGFError {
    if peak_split(line).len() < 2 {
        MGFError::TooManyColumnsForPeakLine
    } else {
        MGFError::MalformedPeakLine
    }
}

/// Outcome of one line on the peak list and the control state.
pub ghost struct PeakStep {
    pub state: MGFParserState,
    pub peaks: Seq<CentroidPeak>,
    pub error: MGFError,
}

/// A peak candidate either appends its peak and moves to `Peaks`, or faults.
pub open spec fn peak_line_step(line: Seq<u8>, peaks: Seq<CentroidPeak>) -> PeakStep {
    if peak_fields_ok(line) {
        PeakStep { state: MGFParserState::Peaks, peaks: peaks.push(peak_of(line)), error: MGFError::NoError }
    } else {
        PeakStep { state: MGFParserState::Error, peaks, error: peak_err(line) }
    }
}

/// One line while in the `Peaks` state: a peak, the closing token, or a
/// fault.
pub open spec fn peaks_state_step(line: Seq<u8>, peaks: Seq<CentroidPeak>) -> PeakStep {
    if is_peak_candidate(line) {
        peak_line_step(line, peaks)
    } else if line == end_ions() {
        PeakStep { state: MGFParserState::Between, peaks, error: MGFError::NoError }
    } else {
        PeakStep { state: MGFParserState::Error, peaks, error: MGFError::MalformedPeakLine }
    }
}

/// The description after one `KEY=VALUE` header, or `None` on a malformed
/// value.
pub open spec fn header_kv_step(key: Seq<u8>, value: Seq<u8>, desc: DescModel) -> Option<
    DescModel,
> {
    if key == title_key() {
        Some(DescModel { id: value, ..desc })
    } else if key == rtinseconds_key() {
        match dec_of(value) {
            Some(t) => Some(DescModel { scans: set_first_time(desc.scans, t), ..desc }),
            None => None,
        }
    } else if key == pepmass_key() {
        let parts = ws_split(value);
        if parts.len() < 2 {
            None
        } else {
            match (dec_of(parts[0]), dec_of(parts[1])) {
                (Some(mz), Some(intensity)) => {
                    if parts.len() > 2 {
                        match int_of(parts[2]) {
                            Some(c) => Some(
                                DescModel {
                                    precursor: Some(
                                        Precursor {
                                            ion: SelectedIon { mz, intensity, charge: Some(c) },
                                        },
                                    ),
                                    ..desc
                                },
                            ),
                            None => None,
                        }
                    } else {
                        Some(
                            DescModel {
                                precursor: Some(
                                    Precursor {
                                        ion: SelectedIon { mz, intensity, charge: None },
                                    },
                                ),
                                ..desc
                            },
                        )
                    }
                },
                _ => None,
            }
        }
    } else {
        Some(
            DescModel { annotations: desc.annotations.insert(lower(key), value), ..desc },
        )
    }
}

/// Outcome of one line on the whole record and the control state.
pub ghost struct HeaderStep {
    pub state: MGFParserState,
    pub desc: DescModel,
    pub peaks: Seq<CentroidPeak>,
    pub error: MGFError,
}

/// One line while in the `ScanHeaders` state, tested in fixed priority
/// order: peak candidate, closing token, `KEY=VALUE` header, fault.
pub open spec fn headers_state_step(line: Seq<u8>, desc: DescModel, peaks: Seq<CentroidPeak>) -> HeaderStep {
    if is_peak_candidate(line) {
        let ps = peak_line_step(line, peaks);
        HeaderStep { state: ps.state, desc, peaks: ps.peaks, error: ps.error }
    } else if line == end_ions() {
        HeaderStep { state: MGFParserState::Between, desc, peaks, error: MGFError::NoError }
    } else if find_byte(line, 0x3d) < line.len() {
        let e = find_byte(line, 0x3d);
        match header_kv_step(line.take(e), line.skip(e + 1), desc) {
            Some(d2) => HeaderStep {
                state: MGFParserState::ScanHeaders,
                desc: d2,
                peaks,
                error: MGFError::NoError,
            },
            None => HeaderStep {
                state: MGFParserState::Error,
                desc,
                peaks,
                error: MGFError::MalformedHeaderLine,
            },
        }
    } else {
        HeaderStep {
            state: MGFParserState::Error,
            desc,
            peaks,
            error: MGFError::MalformedHeaderLine,
        }
    }
}

/// The identifier/offset pairs the raw pre-scan discovers from `pos` on, in
/// discovery order (identifiers may repeat): a line starting with
/// `BEGIN IONS` records its own offset; the next line starting with `TITLE=`
/// yields an entry mapping the trimmed remainder of that line to it.
pub open spec fn scan_entries(data: Seq<u8>, pos: int, found: bool, last: int) -> Seq<
    (Seq<u8>, u64),
>
    decreases data.len() - pos,
{
    if pos < 0 || pos >= data.len() {
        Seq::empty()
    } else {
        let line = line_at(data, pos);
        let pos2 = line_end(data, pos);
        if has_prefix(line, begin_ions()) {
            scan_entries(data, pos2, true, pos)
        } else if found && has_prefix(line, title_prefix()) {
            seq![(trim_spec(line).skip(6), last as u64)] + scan_entries(data, pos2, false, 0)
        } else {
            scan_entries(data, pos2, found, last)
        }
    }
}

/// Applies discovered entries to an index in order, each by `index_insert`.
pub open spec fn apply_entries(acc: Seq<(Seq<u8>, u64)>, s: Seq<(Seq<u8>, u64)>) -> Seq<
    (Seq<u8>, u64),
>
    decreases s.len(),
{
    if s.len() == 0 {
        acc
    } else {
        apply_entries(index_insert(acc, s[0].0, s[0].1), s.skip(1))
    }
}

/// The index a full pre-scan of `data` builds.
pub open spec fn index_of(data: Seq<u8>) -> Seq<(Seq<u8>, u64)> {
    apply_entries(Seq::<(Seq<u8>, u64)>::empty(), scan_entries(data, 0, false, 0))
}

/// Outcome of decoding from a position and state until a record completes
/// (the state reaches `Between`), a fault occurs, or the data ends.
pub ghost struct DecodeOutcome {
    pub state: MGFParserState,
    pub model: RecordModel,
    pub error: MGFError,
    pub end: int,
}

/// One "decode one record" call: lines are consumed (blank ones skipped)
/// until the machine transitions into `Between`, faults, or exhausts the
/// data; the `Done` and `Error` states consume without decoding.
pub open spec fn decode_from(
    data: Seq<u8>,
    pos: int,
    state: MGFParserState,
    m: RecordModel,
) -> DecodeOutcome
    decreases data.len() - pos,
{
    if pos < 0 || pos >= data.len() {
        DecodeOutcome { state: MGFParserState::Done, model: m, error: MGFError::NoError, end: pos }
    } else {
        let pos2 = line_end(data, pos);
        let t = trim_spec(line_at(data, pos));
        if t.len() == 0 {
            decode_from(data, pos2, state, m)
        } else {
            match state {
                MGFParserState::ScanHeaders => {
                    let st = headers_state_step(t, m.desc, m.peaks);
                    let m2 = RecordModel { desc: st.desc, peaks: st.peaks };
                    if st.state == MGFParserState::Error {
                        DecodeOutcome {
                            state: MGFParserState::Error,
                            model: m2,
                            error: st.error,
                            end: pos2,
                        }
                    } else if st.state == MGFParserState::Between {
                        DecodeOutcome {
                            state: MGFParserState::Between,
                            model: m2,
                            error: MGFError::NoError,
                            end: pos2,
                        }
                    } else {
                        decode_from(data, pos2, st.state, m2)
                    }
                },
                MGFParserState::Peaks => {
                    let st = peaks_state_step(t, m.peaks);
                    let m2 = RecordModel { desc: m.desc, peaks: st.peaks };
                    if st.state == MGFParserState::Error {
                        DecodeOutcome {
                            state: MGFParserState::Error,
                            model: m2,
                            error: st.error,
                            end: pos2,
                        }
                    } else if st.state == MGFParserState::Between {
                        DecodeOutcome {
                            state: MGFParserState::Between,
                            model: m2,
                            error: MGFError::NoError,
                            end: pos2,
                        }
                    } else {
                        decode_from(data, pos2, st.state, m2)
                    }
                },
                MGFParserState::Error => DecodeOutcome {
                    state: MGFParserState::Error,
                    model: m,
                    error: MGFError::NoError,
                    end: pos,
                },
                MGFParserState::Done => decode_from(data, pos2, MGFParserState::Done, m),
                _ => {
                    if t == begin_ions() {
                        decode_from(data, pos2, MGFParserState::ScanHeaders, m)
                    } else {
                        decode_from(data, pos2, state, m)
                    }
                },
            }
        }
    }
}

/// The access-layer fault taxonomy: a record that cannot be resolved, or a
/// failure of the underlying stream.
#[derive(Debug, Clone, Copy, PartialEq, Eq, Structural)]
pub enum ScanAccessError {
    ScanNotFound,
    IOError,
}

/// The record at index position `i` decodes and its first acquisition event
/// starts at `time`.
pub open spec fn time_matches(
    data: Seq<u8>,
    idx: Seq<(Seq<u8>, u64)>,
    i: int,
    time: FixedDecimal,
) -> bool {
    let off = idx[i].1 as int;
    let sp = if off <= data.len() {
        off
    } else {
        data.len() as int
    };
    let out = decode_from(data, sp, MGFParserState::Start, default_record());
    &&& out.state != MGFParserState::Error
    &&& out.end != sp
    &&& out.model.desc.scans.len() > 0
    &&& dec_eq(out.model.desc.scans[0].start_time, time)
}

/// The first index position at or after `i` whose record starts at `time`,
/// or the index length if none does.
pub open spec fn find_time_from(
    data: Seq<u8>,
    idx: Seq<(Seq<u8>, u64)>,
    time: FixedDecimal,
    i: int,
) -> int
    decreases idx.len() - i,
{
    if i < 0 || i >= idx.len() {
        idx.len() as int
    } else if time_matches(data, idx, i, time) {
        i
    } else {
        find_time_from(data, idx, time, i + 1)
    }
}

/// An MGF (Mascot Generic Format) decoder over an in-memory byte stream,
/// supporting sequential iteration and, once an offset index is built,
/// random access.
pub struct MGFReader {
    pub handle: ByteCursor,
    pub state: MGFParserState,
    pub offset: usize,
    pub error: MGFError,
    pub index: OffsetIndex,
    pub splitter: PeakSplitter,
}

impl MGFReader {
    /// The stream cursor is in bounds and the index keys are unique.
    pub open spec fn wf(&self) -> bool {
        self.handle.wf() && self.index.wf()
    }

    /// A new, unindexed decoder over `data`, positioned at byte 0.
    pub fn new(data: Vec<u8>) -> (r: MGFReader)
        ensures
            r.handle.data@ == data@,
            r.handle.pos == 0,
            r.state == MGFParserState::Start,
            r.error == MGFError::NoError,
            r.index@ == Seq::<(Seq<u8>, u64)>::empty(),
            !r.index.init,
            r.wf(),
    {
        MGFReader {
            handle: ByteCursor::new(data),
            state: MGFParserState::Start,
            offset: 0,
            error: MGFError::NoError,
            index: OffsetIndex::new(),
            splitter: PeakSplitter::new(),
        }
    }

    /// A new, empty record with the default values of this format.
    pub fn new_scan(&self) -> (r: CentroidSpectrum)
        ensures
            r@ == default_record(),
    {
        let description = SpectrumDescription::default_for_format();
        let peaks = PeakSet::empty();
        CentroidSpectrum { description, peaks }
    }

    /// Parses `line` as a peak if its first byte is an ASCII digit; on a
    /// malformed candidate the decoder faults.
    fn parse_peak_from_line(&mut self, line: &Vec<u8>) -> (r: Option<CentroidPeak>)
        ensures
            final(self).handle == old(self).handle,
            final(self).index == old(self).index,
            final(self).offset == old(self).offset,
            !is_peak_candidate(line@) ==> r == None::<CentroidPeak> && final(self).state == old(self).state && final(self).error == old(self).error,
            is_peak_candidate(line@) && peak_fields_ok(line@) ==> r == Some(peak_of(line@))
                && final(self).state == old(self).state && final(self).error == old(self).error,
            is_peak_candidate(line@) && !peak_fields_ok(line@) ==> r == None::<CentroidPeak>
                && final(self).state == MGFParserState::Error && final(self).error == peak_err(
                line@,
            ),
    {
        if line.len() == 0 || line[0] < 0x30 || line[0] > 0x39 {
            return None;
        }
        let fields = self.splitter.split(line);
        if fields.len() < 2 {
            self.state = MGFParserState::Error;
            self.error = MGFError::TooManyColumnsForPeakLine;
            return None;
        }
        proof {
            assert(views(fields@)[0] == peak_split(line@)[0]);
            assert(views(fields@)[1] == peak_split(line@)[1]);
        }
        let mz = match parse_decimal(fields[0].as_slice()) {
            Some(d) => d,
            None => {
                self.state = MGFParserState::Error;
                self.error = MGFError::MalformedPeakLine;
                return None;
            },
        };
        let intensity = match parse_decimal(fields[1].as_slice()) {
            Some(d) => d,
            None => {
                self.state = MGFParserState::Error;
                self.error = MGFError::MalformedPeakLine;
                return None;
            },
        };
        Some(CentroidPeak { mz, intensity })
    }

    /// One line in the `ScanHeaders` state: peak test first, then the
    /// closing token, then `KEY=VALUE`, else a fault.
    fn handle_scan_header(
        &mut self,
        line: &Vec<u8>,
        description: &mut SpectrumDescription,
        peaks: &mut PeakSet,
    )
        requires
            old(self).state == MGFParserState::ScanHeaders,
        ensures
            ({
                let st = headers_state_step(line@, old(description)@, old(peaks)@);
                &&& final(self).state == st.state
                &&& final(description)@ == st.desc
                &&& final(peaks)@ == st.peaks
                &&& final(self).error == (if st.state == MGFParserState::Error {
                    st.error
                } else {
                    old(self).error
                })
                &&& final(self).handle == old(self).handle
                &&& final(self).index == old(self).index
                &&& final(self).offset == old(self).offset
            }),
    {
        match self.parse_peak_from_line(line) {
            Some(peak) => {
                peaks.push(peak);
                self.state = MGFParserState::Peaks;
                return ;
            },
            None => {},
        }
        if line.len() > 0 && line[0] >= 0x30 && line[0] <= 0x39 {
            // peak candidate that failed to parse: the decoder already faulted
            return ;
        }
        let end_tok = end_ions_bytes();
        if bytes_eq(line, &end_tok) {
            self.state = MGFParserState::Between;
            return ;
        }
        let e = find_eq(line);
        if e < line.len() {
            let key = sub_vec(line, 0, e);
            let value = sub_vec(line, e + 1, line.len());
            proof {
                assert(key@ =~= line@.take(e as int));
                assert(value@ =~= line@.skip(e + 1));
            }
            let title_tok = title_key_bytes();
            let rt_tok = rtinseconds_key_bytes();
            let pep_tok = pepmass_key_bytes();
            if bytes_eq(&key, &title_tok) {
                description.id = value;
                return ;
            }
            if bytes_eq(&key, &rt_tok) {
                match parse_decimal(value.as_slice()) {
                    Some(t) => {
                        description.acquisition.set_first_start_time(t);
                    },
                    None => {
                        self.state = MGFParserState::Error;
                        self.error = MGFError::MalformedHeaderLine;
                    },
                }
                return ;
            }
            if bytes_eq(&key, &pep_tok) {
                let parts = split_whitespace(&value);
                if parts.len() < 2 {
                    self.state = MGFParserState::Error;
                    self.error = MGFError::MalformedHeaderLine;
                    return ;
                }
                proof {
                    assert(views(parts@)[0] == ws_split(value@)[0]);
                    assert(views(parts@)[1] == ws_split(value@)[1]);
                }
                let mz = match parse_decimal(parts[0].as_slice()) {
                    Some(d) => d,
                    None => {
                        self.state = MGFParserState::Error;
                        self.error = MGFError::MalformedHeaderLine;
                        return ;
                    },
                };
                let intensity = match parse_decimal(parts[1].as_slice()) {
                    Some(d) => d,
                    None => {
                        self.state = MGFParserState::Error;
                        self.error = MGFError::MalformedHeaderLine;
                        return ;
                    },
                };
                let charge: Option<i32>;
                if parts.len() > 2 {
                    proof {
                        assert(views(parts@)[2] == ws_split(value@)[2]);
                    }
                    match parse_i32(parts[2].as_slice()) {
                        Some(c) => {
                            charge = Some(c);
                        },
                        None => {
                            self.state = MGFParserState::Error;
                            self.error = MGFError::MalformedHeaderLine;
                            return ;
                        },
                    }
                } else {
                    charge = None;
                }
                description.precursor = Some(
                    Precursor { ion: SelectedIon { mz, intensity, charge } },
                );
                return ;
            }
            let lowered = to_lower(&key);
            description.annotations.insert(lowered, value);
            return ;
        }
        self.state = MGFParserState::Error;
        self.error = MGFError::MalformedHeaderLine;
    }

    /// One line in the `Peaks` state: a peak, the closing token, or a fault.
    fn handle_peak(&mut self, line: &Vec<u8>, peaks: &mut PeakSet)
        ensures
            ({
                let st = peaks_state_step(line@, old(peaks)@);
                &&& final(self).state == st.state
                &&& final(peaks)@ == st.peaks
                &&& final(self).error == (if st.state == MGFParserState::Error {
                    st.error
                } else {
                    old(self).error
                })
                &&& final(self).handle == old(self).handle
                &&& final(self).index == old(self).index
                &&& final(self).offset == old(self).offset
            }),
    {
        match self.parse_peak_from_line(line) {
            Some(peak) => {
                peaks.push(peak);
                self.state = MGFParserState::Peaks;
                return ;
            },
            None => {},
        }
        if line.len() > 0 && line[0] >= 0x30 && line[0] <= 0x39 {
            return ;
        }
        let end_tok = end_ions_bytes();
        if bytes_eq(line, &end_tok) {
            self.state = MGFParserState::Between;
            return ;
        }
        self.state = MGFParserState::Error;
        self.error = MGFError::MalformedPeakLine;
    }

    /// Reads the next record's contents directly into `spectrum`, returning
    /// the number of bytes consumed; zero bytes with no error signals end of
    /// input. A decode fault is returned to the caller rather than aborting.
    #[verifier::loop_isolation(false)]
    pub fn read_into(&mut self, spectrum: &mut CentroidSpectrum) -> (r: Result<usize, MGFError>)
        requires
            old(self).wf(),
        ensures
            final(self).wf(),
            final(self).handle.data@ == old(self).handle.data@,
            final(self).index == old(self).index,
            final(self).offset == old(self).offset,
            old(self).state == MGFParserState::Error ==> r == Err::<usize, MGFError>(
                old(self).error,
            ) && final(self).state == old(self).state && final(self).error == old(self).error
                && final(self).handle == old(self).handle && *final(spectrum) == *old(spectrum),
            old(self).state != MGFParserState::Error ==> ({
                let out = decode_from(
                    old(self).handle.data@,
                    old(self).handle.pos as int,
                    old(self).state,
                    old(spectrum)@,
                );
                &&& out.end >= old(self).handle.pos
                &&& final(self).handle.pos == out.end
                &&& final(spectrum)@ == out.model
                &&& (if out.state == MGFParserState::Error {
                    r == Err::<usize, MGFError>(out.error) && final(self).state
                        == MGFParserState::Error && final(self).error == out.error
                } else {
                    r == Ok::<usize, MGFError>((out.end - old(self).handle.pos) as usize) && final(self).state == out.state && final(self).error == old(self).error
                })
            }),
    {
        if self.state == MGFParserState::Error {
            return Err(self.error);
        }
        let ghost data = self.handle.data@;
        let ghost pos0 = self.handle.pos as int;
        let ghost st0 = self.state;
        let ghost m0 = spectrum@;
        let start = self.handle.stream_position();
        let mut buffer: Vec<u8> = Vec::new();
        loop
            invariant
                self.wf(),
                self.handle.data@ == data,
                self.index == old(self).index,
                self.offset == old(self).offset,
                self.error == old(self).error,
                self.state != MGFParserState::Error,
                start == pos0,
                pos0 <= self.handle.pos,
                decode_from(data, pos0, st0, m0) == decode_from(
                    data,
                    self.handle.pos as int,
                    self.state,
                    spectrum@,
                ),
            decreases data.len() - self.handle.pos,
        {
            let ghost iter_pos = self.handle.pos as int;
            let iter_state = self.state;
            let ghost iter_model = spectrum@;
            let n = self.handle.read_line(&mut buffer);
            if n == 0 {
                self.state = MGFParserState::Done;
                proof {
                    assert(iter_pos == data.len());
                }
                let cur = self.handle.stream_position();
                return Ok(cur - start);
            }
            proof {
                assert(iter_pos < data.len());
                assert(buffer@ == line_at(data, iter_pos));
                assert(self.handle.pos == line_end(data, iter_pos));
            }
            let t = trim(&buffer);
            if t.len() == 0 {
                continue ;
            }
            match self.state {
                MGFParserState::Start => {
                    self.handle_start(&t);
                },
                MGFParserState::FileHeader => {
                    self.handle_start(&t);
                },
                MGFParserState::Between => {
                    self.handle_between(&t);
                },
                MGFParserState::ScanHeaders => {
                    self.handle_scan_header(&t, &mut spectrum.description, &mut spectrum.peaks);
                },
                MGFParserState::Peaks => {
                    self.handle_peak(&t, &mut spectrum.peaks);
                },
                MGFParserState::Done => {},
                MGFParserState::Error => {
                    proof {
                        assert(false);
                    }
                },
            }
            if self.state == MGFParserState::Error {
                return Err(self.error);
            }
            if self.state == MGFParserState::Between && (iter_state == MGFParserState::ScanHeaders
                || iter_state == MGFParserState::Peaks) {
                let cur = self.handle.stream_position();
                return Ok(cur - start);
            }
        }
    }

    /// Reads the next record from the stream, if any; `None` signals
    /// exhaustion or a decode fault (which `error` then records).
    pub fn read_next(&mut self) -> (r: Option<CentroidSpectrum>)
        requires
            old(self).wf(),
        ensures
            final(self).wf(),
            final(self).handle.data@ == old(self).handle.data@,
            final(self).index == old(self).index,
            final(self).offset == old(self).offset,
            old(self).state == MGFParserState::Error ==> r is None && final(self).state == old(self).state && final(self).error == old(self).error && final(self).handle == old(self).handle,
            old(self).state != MGFParserState::Error ==> ({
                let out = decode_from(
                    old(self).handle.data@,
                    old(self).handle.pos as int,
                    old(self).state,
                    default_record(),
                );
                &&& final(self).handle.pos == out.end
                &&& (out.state == MGFParserState::Error ==> r is None && final(self).state
                    == MGFParserState::Error && final(self).error == out.error)
                &&& (out.state != MGFParserState::Error ==> final(self).state == out.state
                    && final(self).error == old(self).error)
                &&& (match r {
                    Some(s) => out.state != MGFParserState::Error && out.end != old(self).handle.pos && s@ == out.model,
                    None => out.state == MGFParserState::Error || out.end == old(self).handle.pos,
                })
            }),
    {
        let mut scan = self.new_scan();
        match self.read_into(&mut scan) {
            Ok(consumed) => {
                if consumed > 0 {
                    Some(scan)
                } else {
                    None
                }
            },
            Err(_) => None,
        }
    }

    /// Moves the stream's read position to `pos`, clamped to the end of the
    /// data; the decoder's own state field is untouched.
    pub fn seek(&mut self, pos: u64) -> (r: u64)
        requires
            old(self).wf(),
        ensures
            final(self).wf(),
            final(self).handle.data == old(self).handle.data,
            final(self).handle.pos == (if pos <= old(self).handle.data@.len() as u64 {
                pos as int
            } else {
                old(self).handle.data@.len() as int
            }),
            r == final(self).handle.pos as u64,
            final(self).state == old(self).state,
            final(self).error == old(self).error,
            final(self).index == old(self).index,
            final(self).offset == old(self).offset,
    {
        let p: usize = if pos > self.handle.data.len() as u64 {
            self.handle.data.len()
        } else {
            pos as usize
        };
        self.handle.seek(p);
        self.handle.stream_position() as u64
    }

    /// Builds the offset index by a raw forward pre-scan: the stream position
    /// is saved, the whole data is scanned from byte 0, and the position is
    /// restored; the index is marked initialized whatever was found. Returns
    /// the number of bytes scanned.
    #[verifier::loop_isolation(false)]
    pub fn build_index(&mut self) -> (r: u64)
        requires
            old(self).wf(),
        ensures
            final(self).wf(),
            final(self).handle.data@ == old(self).handle.data@,
            final(self).handle.pos == old(self).handle.pos,
            final(self).state == old(self).state,
            final(self).error == old(self).error,
            final(self).offset == old(self).offset,
            final(self).index@ == index_of(old(self).handle.data@),
            final(self).index.init,
            r == old(self).handle.data@.len() as u64,
    {
        let ghost data = self.handle.data@;
        let start = self.handle.stream_position();
        self.handle.seek(0);
        self.index.clear();
        let mut found_start = false;
        let mut last_start: usize = 0;
        let mut buffer: Vec<u8> = Vec::new();
        let begin_tok = begin_ions_bytes();
        let title_pre = title_prefix_bytes();
        let ghost target = index_of(data);
        loop
            invariant
                self.wf(),
                self.handle.data@ == data,
                self.state == old(self).state,
                self.error == old(self).error,
                self.offset == old(self).offset,
                start == old(self).handle.pos,
                begin_tok@ == begin_ions(),
                title_pre@ == title_prefix(),
                apply_entries(
                    self.index@,
                    scan_entries(data, self.handle.pos as int, found_start, last_start as int),
                ) == target,
            decreases data.len() - self.handle.pos,
        {
            let ghost iter_pos = self.handle.pos as int;
            let ghost iter_found = found_start;
            let ghost iter_last = last_start as int;
            let ghost iter_index = self.index@;
            let n = self.handle.read_line(&mut buffer);
            if n == 0 {
                break ;
            }
            proof {
                assert(iter_pos < data.len());
                assert(buffer@ == line_at(data, iter_pos));
                assert(self.handle.pos == line_end(data, iter_pos));
            }
            if starts_with(&buffer, &begin_tok) {
                found_start = true;
                last_start = self.handle.stream_position() - n;
                proof {
                    assert(last_start as int == iter_pos);
                }
            } else if found_start && starts_with(&buffer, &title_pre) {
                let t = trim(&buffer);
                proof {
                    assert forall|m: int| 0 <= m < 6 implies !crate::text::is_ws(
                        #[trigger] buffer@[m],
                    ) by {
                        assert(buffer@.take(title_prefix().len() as int)[m] == buffer@[m]);
                        assert(title_prefix()[m] == buffer@[m]);
                    }
                    lemma_trim_keeps_prefix(buffer@, 6);
                }
                let id = sub_vec(&t, 6, t.len());
                proof {
                    assert(id@ =~= trim_spec(line_at(data, iter_pos)).skip(6));
                }
                self.index.insert(id, last_start as u64);
                found_start = false;
                last_start = 0;
                proof {
                    let rest = scan_entries(data, self.handle.pos as int, false, 0);
                    let e = (trim_spec(line_at(data, iter_pos)).skip(6), iter_last as u64);
                    assert(scan_entries(data, iter_pos, iter_found, iter_last) =~= seq![e] + rest);
                    assert((seq![e] + rest)[0] == e);
                    assert((seq![e] + rest).skip(1) =~= rest);
                    assert(self.index@ == index_insert(iter_index, e.0, e.1));
                }
            }
        }
        proof {
            assert(self.handle.pos == data.len());
            assert(scan_entries(data, self.handle.pos as int, found_start, last_start as int)
                =~= Seq::<(Seq<u8>, u64)>::empty());
        }
        self.index.init = true;
        let total = self.handle.stream_position() as u64;
        self.handle.seek(start);
        total
    }

    /// Retrieves one record by its native identifier, leaving the stream's
    /// sequential read position and the decoder state untouched.
    pub fn get_spectrum_by_id(&mut self, id: &Vec<u8>) -> (r: Option<CentroidSpectrum>)
        requires
            old(self).wf(),
            old(self).index.init,
        ensures
            final(self).wf(),
            final(self).handle.data@ == old(self).handle.data@,
            final(self).handle.pos == old(self).handle.pos,
            final(self).state == old(self).state,
            final(self).error == old(self).error,
            final(self).index == old(self).index,
            final(self).offset == old(self).offset,
            ({
                let idx = old(self).index@;
                let data = old(self).handle.data@;
                if index_find(idx, id@) < idx.len() {
                    let off = idx[index_find(idx, id@)].1 as int;
                    let sp = if off <= data.len() {
                        off
                    } else {
                        data.len() as int
                    };
                    let out = decode_from(data, sp, MGFParserState::Start, default_record());
                    match r {
                        Some(s) => out.state != MGFParserState::Error && out.end != sp && s@
                            == out.model,
                        None => out.state == MGFParserState::Error || out.end == sp,
                    }
                } else {
                    r is None
                }
            }),
    {
        let off = match self.index.get(id) {
            Some(o) => o,
            None => {
                return None;
            },
        };
        self.fetch_at(off)
    }

    /// Retrieves one record by its ordinal position in the index, leaving the
    /// stream's sequential read position and the decoder state untouched.
    pub fn get_spectrum_by_index(&mut self, index: usize) -> (r: Option<CentroidSpectrum>)
        requires
            old(self).wf(),
            old(self).index.init,
        ensures
            final(self).wf(),
            final(self).handle.data@ == old(self).handle.data@,
            final(self).handle.pos == old(self).handle.pos,
            final(self).state == old(self).state,
            final(self).error == old(self).error,
            final(self).index == old(self).index,
            final(self).offset == old(self).offset,
            ({
                let idx = old(self).index@;
                let data = old(self).handle.data@;
                if index < idx.len() {
                    let off = idx[index as int].1 as int;
                    let sp = if off <= data.len() {
                        off
                    } else {
                        data.len() as int
                    };
                    let out = decode_from(data, sp, MGFParserState::Start, default_record());
                    match r {
                        Some(s) => out.state != MGFParserState::Error && out.end != sp && s@
                            == out.model,
                        None => out.state == MGFParserState::Error || out.end == sp,
                    }
                } else {
                    r is None
                }
            }),
    {
        let off = match self.index.get_index(index) {
            Some(p) => p.1,
            None => {
                return None;
            },
        };
        self.fetch_at(off)
    }

    /// Decodes exactly one record starting from `off` (clamped to the end of
    /// the data), then restores the stream position and decoder state.
    fn fetch_at(&mut self, off: u64) -> (r: Option<CentroidSpectrum>)
        requires
            old(self).wf(),
        ensures
            final(self).wf(),
            final(self).handle.data@ == old(self).handle.data@,
            final(self).handle.pos == old(self).handle.pos,
            final(self).state == old(self).state,
            final(self).error == old(self).error,
            final(self).index == old(self).index,
            final(self).offset == old(self).offset,
            ({
                let data = old(self).handle.data@;
                let sp = if off <= data.len() {
                    off as int
                } else {
                    data.len() as int
                };
                let out = decode_from(data, sp, MGFParserState::Start, default_record());
                match r {
                    Some(s) => out.state != MGFParserState::Error && out.end != sp && s@
                        == out.model,
                    None => out.state == MGFParserState::Error || out.end == sp,
                }
            }),
    {
        let start = self.handle.stream_position();
        let entry_state = self.state;
        let entry_error = self.error;
        self.seek(off);
        self.state = MGFParserState::Start;
        let result = self.read_next();
        self.state = entry_state;
        self.error = entry_error;
        self.handle.seek(start);
        result
    }

    /// Returns the data stream to the beginning; the decoder's own state
    /// field is not reset.
    pub fn reset(&mut self)
        requires
            old(self).wf(),
        ensures
            final(self).wf(),
            final(self).handle.data@ == old(self).handle.data@,
            final(self).handle.pos == 0,
            final(self).state == old(self).state,
            final(self).error == old(self).error,
            final(self).index == old(self).index,
            final(self).offset == old(self).offset,
    {
        self.handle.seek(0);
    }

    /// The offset index; meaningful once `build_index` has initialized it.
    pub fn get_index(&self) -> (r: &OffsetIndex)
        ensures
            r == &self.index,
    {
        &self.index
    }

    /// Seeks the stream to the record named `id` without decoding, leaving
    /// the decoder ready to iterate forward from that record.
    pub fn start_from_id(&mut self, id: &Vec<u8>) -> (r: Result<(), ScanAccessError>)
        requires
            old(self).wf(),
            old(self).index.init,
        ensures
            final(self).wf(),
            final(self).handle.data@ == old(self).handle.data@,
            final(self).error == old(self).error,
            final(self).index == old(self).index,
            final(self).offset == old(self).offset,
            ({
                let idx = old(self).index@;
                let data = old(self).handle.data@;
                if index_find(idx, id@) < idx.len() {
                    let off = idx[index_find(idx, id@)].1 as int;
                    &&& r == Ok::<(), ScanAccessError>(())
                    &&& final(self).handle.pos == (if off <= data.len() {
                        off
                    } else {
                        data.len() as int
                    })
                    &&& final(self).state == MGFParserState::Start
                } else {
                    &&& r == Err::<(), ScanAccessError>(ScanAccessError::ScanNotFound)
                    &&& final(self).handle.pos == old(self).handle.pos
                    &&& final(self).state == old(self).state
                }
            }),
    {
        match self.index.get(id) {
            Some(off) => {
                self.seek(off);
                self.state = MGFParserState::Start;
                Ok(())
            },
            None => Err(ScanAccessError::ScanNotFound),
        }
    }

    /// Seeks the stream to the record at ordinal position `index` without
    /// decoding, leaving the decoder ready to iterate forward from it.
    pub fn start_from_index(&mut self, index: usize) -> (r: Result<(), ScanAccessError>)
        requires
            old(self).wf(),
            old(self).index.init,
        ensures
            final(self).wf(),
            final(self).handle.data@ == old(self).handle.data@,
            final(self).error == old(self).error,
            final(self).index == old(self).index,
            final(self).offset == old(self).offset,
            ({
                let idx = old(self).index@;
                let data = old(self).handle.data@;
                if index < idx.len() {
                    let off = idx[index as int].1 as int;
                    &&& r == Ok::<(), ScanAccessError>(())
                    &&& final(self).handle.pos == (if off <= data.len() {
                        off
                    } else {
                        data.len() as int
                    })
                    &&& final(self).state == MGFParserState::Start
                } else {
                    &&& r == Err::<(), ScanAccessError>(ScanAccessError::ScanNotFound)
                    &&& final(self).handle.pos == old(self).handle.pos
                    &&& final(self).state == old(self).state
                }
            }),
    {
        match self.index.get_index(index) {
            Some(p) => {
                self.seek(p.1);
                self.state = MGFParserState::Start;
                Ok(())
            },
            None => Err(ScanAccessError::ScanNotFound),
        }
    }

    /// Seeks the stream to the first indexed record whose acquisition start
    /// time denotes the same number as `time`, without leaving a record
    /// decoded; resolution failure is reported as `ScanNotFound`.
    #[verifier::loop_isolation(false)]
    pub fn start_from_time(&mut self, time: FixedDecimal) -> (r: Result<(), ScanAccessError>)
        requires
            old(self).wf(),
            old(self).index.init,
        ensures
            final(self).wf(),
            final(self).handle.data@ == old(self).handle.data@,
            final(self).error == old(self).error,
            final(self).index == old(self).index,
            final(self).offset == old(self).offset,
            ({
                let idx = old(self).index@;
                let data = old(self).handle.data@;
                let f = find_time_from(data, idx, time, 0);
                if f < idx.len() {
                    let off = idx[f].1 as int;
                    &&& r == Ok::<(), ScanAccessError>(())
                    &&& final(self).handle.pos == (if off <= data.len() {
                        off
                    } else {
                        data.len() as int
                    })
                    &&& final(self).state == MGFParserState::Start
                } else {
                    &&& r == Err::<(), ScanAccessError>(ScanAccessError::ScanNotFound)
                    &&& final(self).handle.pos == old(self).handle.pos
                    &&& final(self).state == old(self).state
                }
            }),
    {
        let ghost data = self.handle.data@;
        let ghost idx = self.index@;
        let n = self.index.len();
        let mut i: usize = 0;
        while i < n
            invariant
                0 <= i <= n,
                self.wf(),
                self.handle.pos == old(self).handle.pos,
                self.state == old(self).state,
                self.error == old(self).error,
                self.index == old(self).index,
                self.offset == old(self).offset,
                n == idx.len(),
                idx == self.index@,
                data == self.handle.data@,
                find_time_from(data, idx, time, 0) == find_time_from(data, idx, time, i as int),
            decreases n - i,
        {
            let found = match self.get_spectrum_by_index(i) {
                Some(s) => {
                    match s.description.acquisition.first_start_time() {
                        Some(t0) => t0.eq_value(time),
                        None => false,
                    }
                },
                None => false,
            };
            if found {
                proof {
                    assert(time_matches(data, idx, i as int, time));
                    assert(find_time_from(data, idx, time, i as int) == i as int);
                }
                let p = match self.index.get_index(i) {
                    Some(p) => p,
                    None => {
                        proof {
                            assert(false);
                        }
                        return Err(ScanAccessError::ScanNotFound);
                    },
                };
                self.seek(p.1);
                self.state = MGFParserState::Start;
                return Ok(());
            }
            proof {
                assert(!time_matches(data, idx, i as int, time));
            }
            i += 1;
        }
        Err(ScanAccessError::ScanNotFound)
    }

    /// A new decoder over `data` with its offset index already built by
    /// `build_index`.
    pub fn new_indexed(data: Vec<u8>) -> (r: MGFReader)
        ensures
            r.wf(),
            r.handle.data@ == data@,
            r.handle.pos == 0,
            r.state == MGFParserState::Start,
            r.error == MGFError::NoError,
            r.index@ == index_of(data@),
            r.index.init,
    {
        let mut reader = Self::new(data);
        reader.build_index();
        reader
    }

    /// One line before the first block: everything except the opening token
    /// is ignored.
    fn handle_start(&mut self, line: &Vec<u8>)
        ensures
            final(self).state == (if line@ == begin_ions() {
                MGFParserState::ScanHeaders
            } else {
                old(self).state
            }),
            final(self).error == old(self).error,
            final(self).handle == old(self).handle,
            final(self).index == old(self).index,
            final(self).offset == old(self).offset,
    {
        let begin_tok = begin_ions_bytes();
        if bytes_eq(line, &begin_tok) {
            self.state = MGFParserState::ScanHeaders;
        }
    }

    /// One line between blocks: everything except the opening token is
    /// silently discarded.
    fn handle_between(&mut self, line: &Vec<u8>)
        ensures
            final(self).state == (if line@ == begin_ions() {
                MGFParserState::ScanHeaders
            } else {
                old(self).state
            }),
            final(self).error == old(self).error,
            final(self).handle == old(self).handle,
            final(self).index == old(self).index,
            final(self).offset == old(self).offset,
    {
        let begin_tok = begin_ions_bytes();
        if bytes_eq(line, &begin_tok) {
            self.state = MGFParserState::ScanHeaders;
        }
    }
}

/// Index of the first `=`, or the line length if none occurs.
fn find_eq(line: &Vec<u8>) -> (r: usize)
    ensures
        r == find_byte(line@, 0x3d),
{
    let n = line.len();
    let mut i: usize = 0;
    while i < n
        invariant
            0 <= i <= n,
            n == line@.len(),
            forall|m: int| 0 <= m < i ==> line@[m] != 0x3d,
        decreases n - i,
    {
        if line[i] == 0x3d {
            proof {
                lemma_find_byte_at(line@, 0x3d, i as int);
            }
            return i;
        }
        i += 1;
    }
    proof {
        lemma_find_byte(line@, 0x3d);
        if find_byte(line@, 0x3d) < line@.len() {
            assert(line@[find_byte(line@, 0x3d)] == 0x3d);
        }
    }
    n
}

} // verus!
