//! A signal-processing framework: processing blocks connected by typed
//! sample streams, backed by a mirrored circular buffer, and driven to
//! completion by a graph scheduler.

pub mod block;
pub mod circular_buffer;
pub mod debug_sink;
pub mod graph;
pub mod map_block;
pub mod sigmf;
pub mod single_pole_iir_filter;
pub mod stream;
pub mod vector_source;

use vstd::prelude::*;

verus! {

/// Error type for the framework: carries a diagnostic message.
#[derive(Debug)]
pub struct Error {
    msg: &'static str,
}

impl Error {
    /// The diagnostic message carried by this error.
    pub closed spec fn msg_spec(&self) -> &'static str {
        self.msg
    }

    /// Create a new error with the given message.
    pub fn new(msg: &'static str) -> (e: Error)
        ensures
            e.msg_spec() == msg,
    {
        Error { msg }
    }

    /// The diagnostic message carried by this error.
    pub fn message(&self) -> (m: &'static str)
        ensures
            m == self.msg_spec(),
    {
        self.msg
    }
}

} // verus!
