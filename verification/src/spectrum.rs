//! In-memory representation of one decoded spectrum: a description (identifier,
//! ms level, signal continuity, polarity, precursor, acquisition events,
//! free-form annotations) plus an ordered peak list.

use vstd::prelude::*;
use crate::decimal::FixedDecimal;

verus! {

/// Whether the signal was reduced to discrete peaks or kept as a profile.
#[derive(Debug, Clone, Copy, PartialEq, Eq, Structural)]
pub enum SignalContinuity {
    Centroid,
    Profile,
    Unknown,
}

/// The polarity of the scan.
#[derive(Debug, Clone, Copy, PartialEq, Eq, Structural)]
pub enum ScanPolarity {
    Unknown,
    Positive,
    Negative,
}

/// A single discrete peak: m/z and intensity, in file order.
#[derive(Debug, Clone, Copy, PartialEq, Eq, Structural)]
pub struct CentroidPeak {
    pub mz: FixedDecimal,
    pub intensity: FixedDecimal,
}

/// The ion a fragment spectrum was derived from.
#[derive(Debug, Clone, Copy, PartialEq, Eq, Structural)]
pub struct SelectedIon {
    pub mz: FixedDecimal,
    pub intensity: FixedDecimal,
    pub charge: Option<i32>,
}

/// The precursor description: one selected ion.
#[derive(Debug, Clone, Copy, PartialEq, Eq, Structural)]
pub struct Precursor {
    pub ion: SelectedIon,
}

/// One acquisition event; only its start time is decoded from this format.
#[derive(Debug, Clone, Copy, PartialEq, Eq, Structural)]
pub struct ScanEvent {
    pub start_time: FixedDecimal,
}

/// An ordered list of peaks, appended in file order; no re-sorting happens.
#[derive(Debug, Clone, PartialEq, Eq)]
pub struct PeakSet {
    pub peaks: Vec<CentroidPeak>,
}

impl View for PeakSet {
    type V = Seq<CentroidPeak>;

    open spec fn view(&self) -> Seq<CentroidPeak> {
        self.peaks@
    }
}

impl PeakSet {
    /// A peak list with nothing in it.
    pub fn empty() -> (r: PeakSet)
        ensures
            r@ == Seq::<CentroidPeak>::empty(),
    {
        PeakSet { peaks: Vec::new() }
    }

    /// Appends a peak at the end of the list.
    pub fn push(&mut self, peak: CentroidPeak)
        ensures
            final(self)@ == old(self)@.push(peak),
    {
        self.peaks.push(peak);
    }

    pub fn len(&self) -> (r: usize)
        ensures
            r == self@.len(),
    {
        self.peaks.len()
    }

    pub fn is_empty(&self) -> (r: bool)
        ensures
            r == (self@.len() == 0),
    {
        self.peaks.len() == 0
    }

    /// The peak at position `i`.
    pub fn get(&self, i: usize) -> (r: CentroidPeak)
        requires
            i < self@.len(),
        ensures
            r == self@[i as int],
    {
        self.peaks[i]
    }
}

/// The ordered acquisition events of a record.
#[derive(Debug, Clone, PartialEq, Eq)]
pub struct Acquisition {
    pub scans: Vec<ScanEvent>,
}

impl View for Acquisition {
    type V = Seq<ScanEvent>;

    open spec fn view(&self) -> Seq<ScanEvent> {
        self.scans@
    }
}

impl Acquisition {
    /// An acquisition with no events.
    pub fn empty() -> (r: Acquisition)
        ensures
            r@ == Seq::<ScanEvent>::empty(),
    {
        Acquisition { scans: Vec::new() }
    }

    /// Sets the start time of the first event, creating the event if none
    /// exists yet.
    pub fn set_first_start_time(&mut self, t: FixedDecimal)
        ensures
            final(self)@ == set_first_time(old(self)@, t),
    {
        if self.scans.len() == 0 {
            self.scans.push(ScanEvent { start_time: t });
        } else {
            let ev = ScanEvent { start_time: t };
            self.scans[0] = ev;
        }
    }

    /// The start time of the first event, if any.
    pub fn first_start_time(&self) -> (r: Option<FixedDecimal>)
        ensures
            r == (if self@.len() > 0 {
                Some(self@[0].start_time)
            } else {
                None::<FixedDecimal>
            }),
    {
        if self.scans.len() == 0 {
            None
        } else {
            Some(self.scans[0].start_time)
        }
    }
}

/// The acquisition events after the start time of the first one is set to
/// `t`, an event being created when there was none.
pub open spec fn set_first_time(scans: Seq<ScanEvent>, t: FixedDecimal) -> Seq<ScanEvent> {
    if scans.len() == 0 {
        seq![ScanEvent { start_time: t }]
    } else {
        scans.update(0, ScanEvent { start_time: t })
    }
}

/// A flat key-value annotation store; a later write to a key shadows an
/// earlier one.
#[derive(Debug, Clone, PartialEq, Eq)]
pub struct Annotations {
    pub entries: Vec<(Vec<u8>, Vec<u8>)>,
}

/// The mapping written by a list of key-value entries, later entries winning.
pub open spec fn entries_map(s: Seq<(Vec<u8>, Vec<u8>)>) -> Map<Seq<u8>, Seq<u8>>
    decreases s.len(),
{
    if s.len() == 0 {
        Map::empty()
    } else {
        entries_map(s.drop_last()).insert(s.last().0@, s.last().1@)
    }
}

impl View for Annotations {
    type V = Map<Seq<u8>, Seq<u8>>;

    open spec fn view(&self) -> Map<Seq<u8>, Seq<u8>> {
        entries_map(self.entries@)
    }
}

proof fn lemma_entries_map_value(s: Seq<(Vec<u8>, Vec<u8>)>, k: Seq<u8>, j: int)
    requires
        0 <= j < s.len(),
        s[j].0@ == k,
        forall|m: int| j < m < s.len() ==> s[m].0@ != k,
    ensures
        entries_map(s).contains_key(k),
        entries_map(s)[k] == s[j].1@,
    decreases s.len(),
{
    if j < s.len() - 1 {
        lemma_entries_map_value(s.drop_last(), k, j);
    }
}

proof fn lemma_entries_map_absent(s: Seq<(Vec<u8>, Vec<u8>)>, k: Seq<u8>)
    requires
        forall|m: int| 0 <= m < s.len() ==> s[m].0@ != k,
    ensures
        !entries_map(s).contains_key(k),
    decreases s.len(),
{
    if s.len() > 0 {
        lemma_entries_map_absent(s.drop_last(), k);
    }
}

impl Annotations {
    /// An empty annotation store.
    pub fn empty() -> (r: Annotations)
        ensures
            r@ == Map::<Seq<u8>, Seq<u8>>::empty(),
    {
        let r = Annotations { entries: Vec::new() };
        proof {
            assert(r@ =~= Map::<Seq<u8>, Seq<u8>>::empty());
        }
        r
    }

    /// Stores `v` under `k`, shadowing any earlier value.
    pub fn insert(&mut self, k: Vec<u8>, v: Vec<u8>)
        ensures
            final(self)@ == old(self)@.insert(k@, v@),
    {
        let ghost pre = self.entries@;
        self.entries.push((k, v));
        proof {
            assert(self.entries@.drop_last() =~= pre);
        }
    }

    /// The value stored under `k`, if any.
    #[verifier::loop_isolation(false)]
    pub fn get(&self, k: &Vec<u8>) -> (r: Option<Vec<u8>>)
        ensures
            match r {
                Some(v) => self@.contains_key(k@) && v@ == self@[k@],
                None => !self@.contains_key(k@),
            },
    {
        let n = self.entries.len();
        let mut i = n;
        while i > 0
            invariant
                0 <= i <= n,
                n == self.entries@.len(),
                forall|m: int| i <= m < n ==> self.entries@[m].0@ != k@,
            decreases i,
        {
            i -= 1;
            if crate::text::bytes_eq(&self.entries[i].0, k) {
                proof {
                    lemma_entries_map_value(self.entries@, k@, i as int);
                }
                let v = &self.entries[i].1;
                return Some(crate::text::sub_vec(v, 0, v.len()));
            }
        }
        proof {
            lemma_entries_map_absent(self.entries@, k@);
        }
        None
    }

    /// How many entries have been written (shadowed writes included).
    pub fn entry_count(&self) -> (r: usize)
        ensures
            r == self.entries@.len(),
    {
        self.entries.len()
    }
}

/// The ghost-level content of a record description.
pub ghost struct DescModel {
    pub id: Seq<u8>,
    pub ms_level: u8,
    pub signal_continuity: SignalContinuity,
    pub polarity: ScanPolarity,
    pub precursor: Option<Precursor>,
    pub scans: Seq<ScanEvent>,
    pub annotations: Map<Seq<u8>, Seq<u8>>,
}

/// The ghost-level content of a whole record: description plus peaks.
pub ghost struct RecordModel {
    pub desc: DescModel,
    pub peaks: Seq<CentroidPeak>,
}

/// The default description of this format: ms level 2, centroided signal,
/// unknown polarity, everything else empty.
pub open spec fn default_desc() -> DescModel {
    DescModel {
        id: Seq::empty(),
        ms_level: 2,
        signal_continuity: SignalContinuity::Centroid,
        polarity: ScanPolarity::Unknown,
        precursor: None,
        scans: Seq::empty(),
        annotations: Map::empty(),
    }
}

/// The default record: default description and no peaks.
pub open spec fn default_record() -> RecordModel {
    RecordModel { desc: default_desc(), peaks: Seq::empty() }
}

/// The decoded description of one spectrum.
#[derive(Debug, Clone, PartialEq, Eq)]
pub struct SpectrumDescription {
    pub id: Vec<u8>,
    pub ms_level: u8,
    pub signal_continuity: SignalContinuity,
    pub polarity: ScanPolarity,
    pub precursor: Option<Precursor>,
    pub acquisition: Acquisition,
    pub annotations: Annotations,
}

impl View for SpectrumDescription {
    type V = DescModel;

    open spec fn view(&self) -> DescModel {
        DescModel {
            id: self.id@,
            ms_level: self.ms_level,
            signal_continuity: self.signal_continuity,
            polarity: self.polarity,
            precursor: self.precursor,
            scans: self.acquisition@,
            annotations: self.annotations@,
        }
    }
}

impl SpectrumDescription {
    /// The default description of this format.
    pub fn default_for_format() -> (r: SpectrumDescription)
        ensures
            r@ == default_desc(),
    {
        let r = SpectrumDescription {
            id: Vec::new(),
            ms_level: 2,
            signal_continuity: SignalContinuity::Centroid,
            polarity: ScanPolarity::Unknown,
            precursor: None,
            acquisition: Acquisition::empty(),
            annotations: Annotations::empty(),
        };
        proof {
            assert(r@.id =~= default_desc().id);
            assert(r@.scans =~= default_desc().scans);
            assert(r@.annotations =~= default_desc().annotations);
        }
        r
    }
}

/// One decoded record: description plus centroided peaks.
#[derive(Debug, Clone, PartialEq, Eq)]
pub struct CentroidSpectrum {
    pub description: SpectrumDescription,
    pub peaks: PeakSet,
}

impl View for CentroidSpectrum {
    type V = RecordModel;

    open spec fn view(&self) -> RecordModel {
        RecordModel { desc: self.description@, peaks: self.peaks@ }
    }
}

impl CentroidSpectrum {
    /// The ms level of the record (2 by default for this format).
    pub fn ms_level(&self) -> (r: u8)
        ensures
            r == self@.desc.ms_level,
    {
        self.description.ms_level
    }
}

/// A record whose peak list may be absent.
#[derive(Debug, Clone, PartialEq, Eq)]
pub struct Spectrum {
    pub description: SpectrumDescription,
    pub peaks: Option<PeakSet>,
}

/// Accumulates one record while the decoder walks its lines.
#[derive(Debug, Clone, PartialEq, Eq)]
pub struct SpectrumBuilder {
    pub peaks: PeakSet,
    pub description: SpectrumDescription,
}

impl Default for SpectrumBuilder {
    /// An empty builder carrying this format's default description.
    fn default() -> (r: SpectrumBuilder)
        ensures
            r.description@ == default_desc(),
            r.peaks@ == Seq::<CentroidPeak>::empty(),
    {
        SpectrumBuilder {
            peaks: PeakSet::empty(),
            description: SpectrumDescription::default_for_format(),
        }
    }
}

impl SpectrumBuilder {
    /// Finishes the builder into a centroided record.
    pub fn into_centroid_spectrum(self) -> (r: CentroidSpectrum)
        ensures
            r@.desc == self.description@,
            r@.peaks == self.peaks@,
    {
        CentroidSpectrum { description: self.description, peaks: self.peaks }
    }

    /// Finishes the builder into a record with an optional peak list.
    pub fn into_spectrum(self) -> (r: Spectrum)
        ensures
            r.description@ == self.description@,
            r.peaks == Some(self.peaks),
    {
        Spectrum { description: self.description, peaks: Some(self.peaks) }
    }
}

} // verus!
