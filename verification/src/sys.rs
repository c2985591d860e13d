//! The coder's call interface, held as plain values.
//!
//! The names are those of the coder's own header. The pointer and length
//! pairs of its record do not appear: what a step hands over travels in a
//! [`StepRequest`], and what the coder left behind in a [`StepReply`].

use crate::error::Error;
use vstd::prelude::*;

pub mod szlib;

verus! {

/// (flags) Samples are signed.
pub const AEC_DATA_SIGNED: u32 = 1;

/// (flags) 24 bit samples are coded in 3 bytes.
pub const AEC_DATA_3BYTE: u32 = 2;

/// (flags) Samples are stored with their most significant bit first.
pub const AEC_DATA_MSB: u32 = 4;

/// (flags) The preprocessor is used.
pub const AEC_DATA_PREPROCESS: u32 = 8;

/// (flags) Only the restricted set of code options is used.
pub const AEC_RESTRICTED: u32 = 16;

/// (flags) Each reference sample interval is padded to a byte boundary.
pub const AEC_PAD_RSI: u32 = 32;

/// (flags) Legal block sizes are not enforced.
pub const AEC_NOT_ENFORCE: u32 = 64;

/// (status) No error occurred.
pub const AEC_OK: i32 = 0;

/// (status) Bad configuration.
pub const AEC_CONF_ERROR: i32 = -1;

/// (status) The stream was flushed more than once.
pub const AEC_STREAM_ERROR: i32 = -2;

/// (status) Bad input data.
pub const AEC_DATA_ERROR: i32 = -3;

/// (status) Out of memory, or an output region of a size that is no multiple
/// of the storage size.
pub const AEC_MEM_ERROR: i32 = -4;

/// (flush) More input may follow with later calls.
pub const AEC_NO_FLUSH: i32 = 0;

/// (flush) No input follows: drain all output.
pub const AEC_FLUSH: i32 = 1;

/// The flush value that stands for `flush`.
pub open spec fn flush_value(flush: bool) -> i32 {
    if flush {
        AEC_FLUSH
    } else {
        AEC_NO_FLUSH
    }
}

/// The coder's private state of one started session.
///
/// A value of this type stands for state that the coder has allocated and
/// not yet freed. Only a session that has started holds one, it cannot be
/// copied, and [`internal_state::release`] uses it up, so the answer of the
/// coder's teardown can be given once for each start and no more.
#[allow(non_camel_case_types)]
#[derive(Debug)]
pub struct internal_state {
    private: (),
}

impl internal_state {
    pub(crate) fn allocated() -> (state: internal_state) {
        internal_state { private: () }
    }

    /// Takes the status that the coder's teardown returned for this state.
    pub fn release(self, status: i32) -> (result: Result<(), Error>)
        ensures
            result == Error::of_status(status),
    {
        Error::from_int(status)
    }
}

/// The coder's record of one stream: its parameters and its private state.
#[allow(non_camel_case_types)]
#[derive(Debug)]
pub struct aec_stream {
    /// Resolution in bits per sample.
    pub bits_per_sample: u32,
    /// Block size in samples.
    pub block_size: u32,
    /// Number of blocks between two reference samples.
    pub rsi: u32,
    /// The flag bits that control the algorithm.
    pub flags: u32,
    /// The coder's private state, from the start of a session to its end.
    pub state: Option<internal_state>,
}

impl aec_stream {
    /// Whether the coder holds state for this record.
    pub open spec fn live(&self) -> bool {
        self.state.is_some()
    }

    /// Whether two records carry the same four parameters.
    pub open spec fn same_parameters(&self, other: &aec_stream) -> bool {
        &&& self.bits_per_sample == other.bits_per_sample
        &&& self.block_size == other.block_size
        &&& self.rsi == other.rsi
        &&& self.flags == other.flags
    }

    /// Whether the coder holds state for this record.
    pub fn is_live(&self) -> (live: bool)
        ensures
            live == self.live(),
    {
        self.state.is_some()
    }
}

/// What one step hands to the coder.
#[derive(Clone, Copy, Debug, PartialEq, Eq, Structural)]
pub struct StepRequest {
    /// Number of input bytes on offer.
    pub avail_in: usize,
    /// Number of bytes that the output region can take.
    pub avail_out: usize,
    /// [`AEC_FLUSH`] or [`AEC_NO_FLUSH`].
    pub flush: i32,
}

/// What the coder left behind after one step.
#[derive(Clone, Debug, PartialEq, Eq)]
pub struct StepReply {
    /// The status that the step returned.
    pub status: i32,
    /// Number of input bytes that the coder did not consume.
    pub avail_in: usize,
    /// The bytes that the coder wrote at the start of the output region.
    pub written: Vec<u8>,
}

impl StepReply {
    /// Whether this can be the coder's answer to `request`: it consumed no
    /// more than was on offer and wrote no more than the region can take.
    pub open spec fn answers(&self, request: &StepRequest) -> bool {
        &&& self.avail_in <= request.avail_in
        &&& self.written@.len() <= request.avail_out
    }

    /// Whether this can be the coder's answer to `request`.
    pub fn is_answer_to(&self, request: &StepRequest) -> (ok: bool)
        ensures
            ok == self.answers(request),
    {
        self.avail_in <= request.avail_in && self.written.len() <= request.avail_out
    }
}

} // verus!
