//! SigMF metadata model.
//!
//! SigMF pairs a raw sample file with a JSON description.  This module
//! holds the metadata as plain values: rates and frequencies are
//! carried as the bit patterns of IEEE-754 doubles, so the model stays
//! exact; reading and writing the JSON itself is the business of an
//! outer program.

use vstd::prelude::*;

verus! {

/// The SigMF datatype written for complex 32-bit float captures.
pub const DATATYPE_CF32: &'static str = "cf32";

/// The SigMF specification version this model follows.
pub const VERSION: &'static str = "1.1.0";

/// SigMF file source block: the anchor type for wiring recorded
/// sample files into a graph.  Reading the paired sample file is an
/// outer program's business.
pub struct SigMFSource {}

/// Capture segment: where in the dataset a tuning takes effect.
pub struct Capture {
    /// Sample index in the dataset file at which this segment takes
    /// effect.
    pub core_sample_start: u64,
    /// The index of the sample referenced by `sample_start` relative
    /// to an original sample stream.
    pub core_global_index: Option<u64>,
    /// Header bytes to skip.
    pub core_header_bytes: Option<u64>,
    /// Frequency of capture, as IEEE-754 double bits.
    pub core_frequency: Option<u64>,
    /// ISO8601 string for when this was captured.
    pub core_datetime: Option<String>,
}

/// Annotation segment: a labelled range of samples.
pub struct Annotation {
    /// Sample offset.
    pub core_sample_start: u64,
    /// Annotation width.
    pub core_sample_count: Option<u64>,
    /// Annotation creator.
    pub core_generator: Option<String>,
    /// Annotation label.
    pub core_label: Option<String>,
    /// Comment.
    pub core_comment: Option<String>,
    /// Frequency lower edge, as IEEE-754 double bits.
    pub core_freq_lower_edge: Option<u64>,
    /// Frequency upper edge, as IEEE-754 double bits.
    pub core_freq_upper_edge: Option<u64>,
    /// UUID.
    pub core_uuid: Option<String>,
}

/// Global object: what the whole dataset is.
pub struct Global {
    /// Data format.
    pub core_datatype: String,
    /// Sample rate, as IEEE-754 double bits.
    pub core_sample_rate: Option<u64>,
    /// SigMF version.
    pub core_version: String,
    /// Number of channels.
    pub core_num_channels: Option<u64>,
    /// SHA512 of the data.
    pub core_sha512: Option<String>,
    /// Description.
    pub core_description: Option<String>,
    /// Author of the recording.
    pub core_author: Option<String>,
    /// Recorder software.
    pub core_recorder: Option<String>,
    /// License of the data.
    pub core_license: Option<String>,
    /// Hardware used to make the recording.
    pub core_hw: Option<String>,
}

/// SigMF data: the whole metadata file.
pub struct SigMF {
    /// Global information.
    pub global: Global,
    /// Capture segments.
    pub captures: Vec<Capture>,
    /// Annotations on the data.
    pub annotations: Vec<Annotation>,
}

/// The metadata describing one cf32 capture: version and datatype
/// fixed, the given sample rate, and a single capture segment at
/// sample zero with the given frequency.  This is exactly what gets
/// serialized next to a recorded sample file.
pub fn build_meta(samp_rate_bits: u64, freq_bits: u64) -> (m: SigMF)
    ensures
        m.global.core_datatype@ == DATATYPE_CF32@,
        m.global.core_version@ == VERSION@,
        m.global.core_sample_rate == Some(samp_rate_bits),
        m.global.core_num_channels is None,
        m.global.core_sha512 is None,
        m.global.core_description is None,
        m.global.core_author is None,
        m.global.core_recorder is None,
        m.global.core_license is None,
        m.global.core_hw is None,
        m.captures@.len() == 1,
        m.captures@[0].core_sample_start == 0,
        m.captures@[0].core_frequency == Some(freq_bits),
        m.captures@[0].core_global_index is None,
        m.captures@[0].core_header_bytes is None,
        m.captures@[0].core_datetime is None,
        m.annotations@.len() == 0,
{
    let global = Global {
        core_datatype: DATATYPE_CF32.to_string(),
        core_sample_rate: Some(samp_rate_bits),
        core_version: VERSION.to_string(),
        core_num_channels: None,
        core_sha512: None,
        core_description: None,
        core_author: None,
        core_recorder: None,
        core_license: None,
        core_hw: None,
    };
    let capture = Capture {
        core_sample_start: 0,
        core_global_index: None,
        core_header_bytes: None,
        core_frequency: Some(freq_bits),
        core_datetime: None,
    };
    let mut captures: Vec<Capture> = Vec::new();
    captures.push(capture);
    SigMF { global, captures, annotations: Vec::new() }
}

} // verus!
