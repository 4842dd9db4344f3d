//! Decoding of line-oriented mass-spectrometry spectral records (the MGF text
//! format), with sequential iteration, an offset index built by a raw
//! pre-scan, and position-preserving random access by identifier, ordinal
//! position, or acquisition time.

pub mod cursor;
pub mod decimal;
pub mod instrument;
pub mod laws;
pub mod mgf;
pub mod offset_index;
pub mod splitter;
pub mod spectrum;
pub mod text;

pub use decimal::FixedDecimal;
pub use mgf::{MGFError, MGFParserState, MGFReader, ScanAccessError};
pub use offset_index::OffsetIndex;
pub use spectrum::{
    Acquisition, Annotations, CentroidPeak, CentroidSpectrum, PeakSet, Precursor, ScanEvent,
    ScanPolarity, SelectedIon, SignalContinuity, Spectrum, SpectrumBuilder, SpectrumDescription,
};
