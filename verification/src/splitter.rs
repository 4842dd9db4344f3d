//! The peak-line field splitter. Peak lines separate m/z from intensity with
//! a tab or a run of whitespace; the splitting itself is done by the regex
//! crate with the fixed pattern `\t|\s+`, compiled once and reused.

use vstd::prelude::*;

verus! {

/// Declares the regex crate's compiled-pattern type so it can stand in a
/// field; its values stay opaque to the verifier.
#[verifier::external_type_specification]
#[verifier::external_body]
pub struct ExRegex(regex::bytes::Regex);

/// The fields of a line split at each match of the pattern `\t|\s+` (a tab,
/// or a run of whitespace), leftmost match first. The result depends on the
/// line alone; it is computed only by the regex crate.
pub uninterp spec fn peak_split(s: Seq<u8>) -> Seq<Seq<u8>>;

/// Holds the separator pattern, compiled once when the decoder is created.
pub struct PeakSplitter {
    separator: regex::bytes::Regex,
}

impl PeakSplitter {
    /// Relies on regex::bytes::Regex::new: the fixed pattern `\t|\s+` is
    /// valid, so compiling it cannot fail.
    #[verifier::external_body]
    fn compile() -> regex::bytes::Regex {
        regex::bytes::Regex::new("\\t|\\s+").unwrap()
    }

    /// A splitter holding the compiled separator pattern. This is the only
    /// way to construct one, so every `PeakSplitter` carries `\t|\s+`.
    pub fn new() -> PeakSplitter {
        PeakSplitter { separator: Self::compile() }
    }

    /// Relies on regex::bytes::Regex::split: the line is split at each match
    /// of the separator, leftmost match first. The `separator` field of every
    /// `PeakSplitter` holds the fixed pattern `\t|\s+`, so the fields are the
    /// ones `peak_split` names.
    #[verifier::external_body]
    pub fn split(&self, line: &Vec<u8>) -> (r: Vec<Vec<u8>>)
        ensures
            crate::text::views(r@) == peak_split(line@),
    {
        self.separator.split(line).map(|p| p.to_vec()).collect()
    }
}

} // verus!
