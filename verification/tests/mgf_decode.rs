//! End-to-end tests of the MGF decoder: sequential iteration, header and
//! peak parsing, the fault taxonomy, the offset index, and random access.

use mzdata::decimal::{parse_decimal, parse_i32};
use mzdata::{
    CentroidSpectrum, FixedDecimal, MGFError, MGFReader, ScanAccessError, ScanPolarity,
    SignalContinuity,
};

fn data(s: &str) -> Vec<u8> {
    s.as_bytes().to_vec()
}

fn dec(negative: bool, mantissa: u64, scale: u32) -> FixedDecimal {
    FixedDecimal { negative, mantissa, scale }
}

const TWO_RECORDS: &str = "BEGIN IONS\nTITLE=A\nRTINSECONDS=10.5\nPEPMASS=500.5 1000.0 2\n100.5\t250.25\nEND IONS\nBEGIN IONS\nTITLE=B\nRTINSECONDS=20.5\nPEPMASS=600.25 2000.0\n200.5 350.75\n201.5 351.75\nEND IONS\n";

#[test]
fn empty_input_yields_no_records_and_empty_index() {
    let mut reader = MGFReader::new(Vec::new());
    assert!(reader.read_next().is_none());
    reader.build_index();
    assert!(reader.index.init);
    assert_eq!(reader.index.len(), 0);
    assert!(reader.index.is_empty());
}

#[test]
fn pepmass_with_charge() {
    let mut reader = MGFReader::new(data(
        "BEGIN IONS\nPEPMASS=500.5 1000.0 2\nEND IONS\n",
    ));
    let rec = reader.read_next().expect("one record");
    let pre = rec.description.precursor.expect("precursor set");
    assert_eq!(pre.ion.mz, dec(false, 5005, 1));
    assert_eq!(pre.ion.intensity, dec(false, 10000, 1));
    assert_eq!(pre.ion.charge, Some(2));
}

#[test]
fn pepmass_without_charge() {
    let mut reader = MGFReader::new(data("BEGIN IONS\nPEPMASS=500.5 1000.0\nEND IONS\n"));
    let rec = reader.read_next().expect("one record");
    let pre = rec.description.precursor.expect("precursor set");
    assert_eq!(pre.ion.mz, dec(false, 5005, 1));
    assert_eq!(pre.ion.intensity, dec(false, 10000, 1));
    assert_eq!(pre.ion.charge, None);
}

#[test]
fn peak_line_tab_and_space_runs_parse_alike() {
    let mut reader = MGFReader::new(data("BEGIN IONS\n100.5\t250.25\nEND IONS\n"));
    let rec = reader.read_next().expect("one record");
    assert_eq!(rec.peaks.len(), 1);
    assert_eq!(rec.peaks.get(0).mz, dec(false, 1005, 1));
    assert_eq!(rec.peaks.get(0).intensity, dec(false, 25025, 2));

    let mut reader = MGFReader::new(data("BEGIN IONS\n100.5   250.25\nEND IONS\n"));
    let rec2 = reader.read_next().expect("one record");
    assert_eq!(rec2.peaks.len(), 1);
    assert_eq!(rec.peaks.get(0), rec2.peaks.get(0));
}

#[test]
fn empty_block_yields_default_record() {
    let mut reader = MGFReader::new(data("BEGIN IONS\nEND IONS\n"));
    let rec = reader.read_next().expect("one record");
    assert_eq!(rec.peaks.len(), 0);
    assert_eq!(rec.description.ms_level, 2);
    assert_eq!(rec.description.signal_continuity, SignalContinuity::Centroid);
    assert_eq!(rec.description.polarity, ScanPolarity::Unknown);
    assert!(rec.description.id.is_empty());
    assert!(rec.description.precursor.is_none());
    assert!(reader.read_next().is_none());
}

#[test]
fn two_record_index_positions_and_offsets() {
    let text = "BEGIN IONS\nTITLE=A\nEND IONS\nBEGIN IONS\nTITLE=B\nEND IONS\n";
    let mut reader = MGFReader::new(data(text));
    reader.build_index();
    assert!(reader.index.init);
    assert_eq!(reader.index.len(), 2);
    // Query in reverse order: positions are fixed by discovery order.
    let (id1, off1) = reader.index.get_index(1).expect("position 1");
    let (id0, off0) = reader.index.get_index(0).expect("position 0");
    assert_eq!(id0, b"A".to_vec());
    assert_eq!(off0, 0);
    assert_eq!(id1, b"B".to_vec());
    assert_eq!(off1, 28);
    assert_eq!(reader.index.get(&b"A".to_vec()), Some(0));
    assert_eq!(reader.index.get(&b"B".to_vec()), Some(28));
    assert_eq!(reader.index.get(&b"C".to_vec()), None);
}

#[test]
fn sequential_count_matches_block_pairs() {
    let text = "\nBEGIN IONS\nTITLE=A\n1 2\nEND IONS\nBEGIN IONS\nTITLE=B\nEND IONS\nBEGIN IONS\nTITLE=C\n3.5 4.5\nEND IONS\n";
    let reader = MGFReader::new(data(text));
    let mut reader = reader;
    let mut count = 0;
    while let Some(_rec) = reader.read_next() {
        count += 1;
    }
    assert_eq!(count, 3);
}

fn read_all(text: &str) -> Vec<CentroidSpectrum> {
    let mut reader = MGFReader::new(data(text));
    let mut out = Vec::new();
    while let Some(rec) = reader.read_next() {
        out.push(rec);
    }
    out
}

#[test]
fn random_access_equals_sequential_in_any_order() {
    let sequential = read_all(TWO_RECORDS);
    assert_eq!(sequential.len(), 2);
    let mut reader = MGFReader::new_indexed(data(TWO_RECORDS));
    // Reverse query order, by index.
    let by_index_1 = reader.get_spectrum_by_index(1).expect("record at 1");
    let by_index_0 = reader.get_spectrum_by_index(0).expect("record at 0");
    assert_eq!(by_index_0, sequential[0]);
    assert_eq!(by_index_1, sequential[1]);
    // By identifier, again out of order.
    let by_id_b = reader.get_spectrum_by_id(&b"B".to_vec()).expect("record B");
    let by_id_a = reader.get_spectrum_by_id(&b"A".to_vec()).expect("record A");
    assert_eq!(by_id_a, sequential[0]);
    assert_eq!(by_id_b, sequential[1]);
    assert!(reader.get_spectrum_by_id(&b"missing".to_vec()).is_none());
    assert!(reader.get_spectrum_by_index(2).is_none());
}

#[test]
fn random_access_preserves_sequential_position() {
    let sequential = read_all(TWO_RECORDS);
    let mut reader = MGFReader::new_indexed(data(TWO_RECORDS));
    let first = reader.read_next().expect("first record");
    assert_eq!(first, sequential[0]);
    // A burst of random accesses in between must not disturb the cursor.
    let _ = reader.get_spectrum_by_index(0);
    let _ = reader.get_spectrum_by_id(&b"B".to_vec());
    let _ = reader.get_spectrum_by_index(1);
    let second = reader.read_next().expect("second record");
    assert_eq!(second, sequential[1]);
    assert!(reader.read_next().is_none());
}

#[test]
fn title_and_annotations_are_decoded() {
    let text = "BEGIN IONS\nTITLE=Scan 42\nMyKey=Some Value\nCHARGE=2+\nEND IONS\n";
    let mut reader = MGFReader::new(data(text));
    let rec = reader.read_next().expect("one record");
    assert_eq!(rec.description.id, b"Scan 42".to_vec());
    // Keys are stored lower-cased; values verbatim.
    assert_eq!(
        rec.description.annotations.get(&b"mykey".to_vec()),
        Some(b"Some Value".to_vec())
    );
    assert_eq!(
        rec.description.annotations.get(&b"charge".to_vec()),
        Some(b"2+".to_vec())
    );
    assert_eq!(rec.description.annotations.get(&b"MyKey".to_vec()), None);
}

#[test]
fn rtinseconds_sets_first_scan_start_time() {
    let mut reader = MGFReader::new(data("BEGIN IONS\nRTINSECONDS=10.5\nEND IONS\n"));
    let rec = reader.read_next().expect("one record");
    assert_eq!(
        rec.description.acquisition.first_start_time(),
        Some(dec(false, 105, 1))
    );
}

#[test]
fn malformed_header_line_faults() {
    let mut reader = MGFReader::new(data("BEGIN IONS\nGARBAGE LINE\n"));
    let mut scan = reader.new_scan();
    assert_eq!(reader.read_into(&mut scan), Err(MGFError::MalformedHeaderLine));
}

#[test]
fn short_peak_line_faults_with_column_count() {
    let mut reader = MGFReader::new(data("BEGIN IONS\n100.5\nEND IONS\n"));
    let mut scan = reader.new_scan();
    assert_eq!(
        reader.read_into(&mut scan),
        Err(MGFError::TooManyColumnsForPeakLine)
    );
}

#[test]
fn malformed_peak_line_faults() {
    let mut reader = MGFReader::new(data("BEGIN IONS\n100.5 250.25\nnot a peak\n"));
    let mut scan = reader.new_scan();
    assert_eq!(reader.read_into(&mut scan), Err(MGFError::MalformedPeakLine));
}

#[test]
fn unparseable_peak_number_faults() {
    let mut reader = MGFReader::new(data("BEGIN IONS\n1x0 250.25\nEND IONS\n"));
    let mut scan = reader.new_scan();
    assert_eq!(reader.read_into(&mut scan), Err(MGFError::MalformedPeakLine));
}

#[test]
fn start_from_id_and_index_seek_without_decoding() {
    let sequential = read_all(TWO_RECORDS);
    let mut reader = MGFReader::new_indexed(data(TWO_RECORDS));
    reader.start_from_id(&b"B".to_vec()).expect("seek to B");
    assert_eq!(reader.read_next().expect("record B"), sequential[1]);
    reader.start_from_index(0).expect("seek to 0");
    assert_eq!(reader.read_next().expect("record A"), sequential[0]);
    assert_eq!(
        reader.start_from_id(&b"missing".to_vec()),
        Err(ScanAccessError::ScanNotFound)
    );
    assert_eq!(
        reader.start_from_index(7),
        Err(ScanAccessError::ScanNotFound)
    );
}

#[test]
fn start_from_time_finds_matching_record() {
    let sequential = read_all(TWO_RECORDS);
    let mut reader = MGFReader::new_indexed(data(TWO_RECORDS));
    reader.start_from_time(dec(false, 205, 1)).expect("time 20.5");
    assert_eq!(reader.read_next().expect("record B"), sequential[1]);
    reader.start_from_time(dec(false, 105, 1)).expect("time 10.5");
    assert_eq!(reader.read_next().expect("record A"), sequential[0]);
    // The written form does not matter: 10.50 denotes the same time.
    reader.start_from_time(dec(false, 1050, 2)).expect("time 10.50");
    assert_eq!(reader.read_next().expect("record A again"), sequential[0]);
    assert_eq!(
        reader.start_from_time(dec(false, 999, 0)),
        Err(ScanAccessError::ScanNotFound)
    );
}

#[test]
fn reset_returns_to_the_beginning() {
    let sequential = read_all(TWO_RECORDS);
    let mut reader = MGFReader::new(data(TWO_RECORDS));
    let first = reader.read_next().expect("first record");
    reader.reset();
    let again = reader.read_next().expect("first record again");
    assert_eq!(first, again);
    assert_eq!(first, sequential[0]);
}

#[test]
fn index_insert_overwrites_offsets_but_keeps_positions() {
    let mut idx = mzdata::OffsetIndex::new();
    idx.insert(b"x".to_vec(), 1);
    idx.insert(b"y".to_vec(), 2);
    idx.insert(b"x".to_vec(), 9);
    assert_eq!(idx.len(), 2);
    assert_eq!(idx.get(&b"x".to_vec()), Some(9));
    assert_eq!(idx.get(&b"y".to_vec()), Some(2));
    let (id0, off0) = idx.get_index(0).expect("position 0");
    assert_eq!((id0, off0), (b"x".to_vec(), 9));
}

#[test]
fn peak_splitter_splits_on_tab_and_whitespace_runs() {
    let sp = mzdata::splitter::PeakSplitter::new();
    assert_eq!(
        sp.split(&b"1.0 2.0".to_vec()),
        vec![b"1.0".to_vec(), b"2.0".to_vec()]
    );
    assert_eq!(
        sp.split(&b"1.0\t2.0\t3".to_vec()),
        vec![b"1.0".to_vec(), b"2.0".to_vec(), b"3".to_vec()]
    );
    assert_eq!(
        sp.split(&b"1.0   2.0".to_vec()),
        vec![b"1.0".to_vec(), b"2.0".to_vec()]
    );
}

#[test]
fn decimal_parsing_accepts_plain_numerals() {
    assert_eq!(parse_decimal(b"3.14"), Some(dec(false, 314, 2)));
    assert_eq!(parse_decimal(b"-0.5"), Some(dec(true, 5, 1)));
    assert_eq!(parse_decimal(b"+5."), Some(dec(false, 5, 0)));
    assert_eq!(parse_decimal(b".5"), Some(dec(false, 5, 1)));
    assert_eq!(parse_decimal(b"100"), Some(dec(false, 100, 0)));
    assert_eq!(parse_decimal(b""), None);
    assert_eq!(parse_decimal(b"."), None);
    assert_eq!(parse_decimal(b"abc"), None);
    assert_eq!(parse_decimal(b"1.2.3"), None);
    assert_eq!(parse_decimal(b"1e5"), None);
    assert_eq!(parse_decimal(b"99999999999999999999"), None);
}

#[test]
fn integer_parsing_respects_range() {
    assert_eq!(parse_i32(b"2"), Some(2));
    assert_eq!(parse_i32(b"+5"), Some(5));
    assert_eq!(parse_i32(b"-7"), Some(-7));
    assert_eq!(parse_i32(b"2147483647"), Some(i32::MAX));
    assert_eq!(parse_i32(b"2147483648"), None);
    assert_eq!(parse_i32(b"-2147483648"), Some(i32::MIN));
    assert_eq!(parse_i32(b"-2147483649"), None);
    assert_eq!(parse_i32(b""), None);
    assert_eq!(parse_i32(b"1.5"), None);
}

#[test]
fn builder_finishes_into_spectra() {
    let builder = mzdata::SpectrumBuilder::default();
    let rec = builder.clone().into_centroid_spectrum();
    assert_eq!(rec.description.ms_level, 2);
    assert_eq!(rec.peaks.len(), 0);
    let spec = builder.into_spectrum();
    assert_eq!(spec.description.ms_level, 2);
    assert!(spec.peaks.is_some());
}

#[test]
fn iteration_counts_msn_records() {
    let mut reader = MGFReader::new(data(TWO_RECORDS));
    let mut ms1_count = 0;
    let mut msn_count = 0;
    while let Some(scan) = reader.read_next() {
        if scan.ms_level() == 1 {
            ms1_count += 1;
        } else {
            msn_count += 1;
        }
    }
    assert_eq!(ms1_count, 0);
    assert_eq!(msn_count, 2);
}

#[test]
fn indexed_iteration_visits_every_record_in_reverse() {
    let mut reader = MGFReader::new_indexed(data(TWO_RECORDS));
    let n = reader.index.len();
    let mut msn_count = 0;
    for i in (0..n).rev() {
        let scan = reader.get_spectrum_by_index(i).expect("missing record");
        assert!(scan.ms_level() >= 2);
        msn_count += 1;
    }
    assert_eq!(msn_count, 2);
}
