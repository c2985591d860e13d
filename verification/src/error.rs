//! The errors of a session, and how the coder's status codes map to them.

use crate::sys::{AEC_CONF_ERROR, AEC_DATA_ERROR, AEC_MEM_ERROR, AEC_OK, AEC_STREAM_ERROR};
use vstd::prelude::*;
use vstd::std_specs::convert::FromSpecImpl;

verus! {

/// What can go wrong in a session.
#[derive(Clone, Debug, PartialEq, Eq, Hash, Structural)]
pub enum Error {
    /// The parameters are not acceptable to the coder.
    Configuration,
    /// The session was used after its end, or flushed twice.
    Stream,
    /// The input of a decoder is malformed.
    Data,
    /// The coder ran out of memory, or the output region has a size that is
    /// no multiple of the coder's storage size.
    Memory,
}

/// The class under which a stream layer files an error.
#[derive(Clone, Copy, Debug, PartialEq, Eq, Hash, Structural)]
pub enum ErrorKind {
    InvalidInput,
    InvalidData,
    Other,
}

impl Error {
    /// What a status code of the coder means. A code that the coder does not
    /// define counts as a bad configuration.
    pub open spec fn of_status(v: i32) -> Result<(), Error> {
        if v == AEC_OK {
            Ok(())
        } else if v == AEC_STREAM_ERROR {
            Err(Error::Stream)
        } else if v == AEC_DATA_ERROR {
            Err(Error::Data)
        } else if v == AEC_MEM_ERROR {
            Err(Error::Memory)
        } else {
            Err(Error::Configuration)
        }
    }

    /// The class of this error.
    pub open spec fn kind(&self) -> ErrorKind {
        match self {
            Error::Configuration => ErrorKind::InvalidInput,
            Error::Stream => ErrorKind::Other,
            Error::Data => ErrorKind::InvalidData,
            Error::Memory => ErrorKind::Other,
        }
    }

    /// The text of this error.
    pub open spec fn text(&self) -> Seq<char> {
        match self {
            Error::Configuration => "bad configuration"@,
            Error::Stream => "stream closed before all data written"@,
            Error::Data => "unexpected data"@,
            Error::Memory => "out of memory"@,
        }
    }

    /// Maps a status code of the coder to `Ok` or to the error it stands for.
    pub fn from_int(v: i32) -> (result: Result<(), Error>)
        ensures
            result == Error::of_status(v),
    {
        if v == AEC_OK {
            Ok(())
        } else if v == AEC_CONF_ERROR {
            Err(Error::Configuration)
        } else if v == AEC_STREAM_ERROR {
            Err(Error::Stream)
        } else if v == AEC_DATA_ERROR {
            Err(Error::Data)
        } else if v == AEC_MEM_ERROR {
            Err(Error::Memory)
        } else {
            Err(Error::Configuration)
        }
    }

    /// The text of this error.
    pub fn message(&self) -> (text: String)
        ensures
            text@ == self.text(),
    {
        match self {
            Error::Configuration => "bad configuration".to_string(),
            Error::Stream => "stream closed before all data written".to_string(),
            Error::Data => "unexpected data".to_string(),
            Error::Memory => "out of memory".to_string(),
        }
    }
}

impl FromSpecImpl<Error> for ErrorKind {
    open spec fn obeys_from_spec() -> bool {
        true
    }

    open spec fn from_spec(err: Error) -> ErrorKind {
        err.kind()
    }
}

impl From<Error> for ErrorKind {
    fn from(err: Error) -> (kind: ErrorKind) {
        match err {
            Error::Configuration => ErrorKind::InvalidInput,
            Error::Stream => ErrorKind::Other,
            Error::Data => ErrorKind::InvalidData,
            Error::Memory => ErrorKind::Other,
        }
    }
}

/// Every status code maps to `Ok` or to one of the four errors, and to `Ok`
/// for the coder's success code alone.
pub proof fn lemma_status_total(v: i32)
    ensures
        Error::of_status(v).is_ok() <==> v == AEC_OK,
        Error::of_status(v) == Err::<(), Error>(Error::Configuration) <==> v != AEC_OK && v
            != AEC_STREAM_ERROR && v != AEC_DATA_ERROR && v != AEC_MEM_ERROR,
        Error::of_status(v) == Err::<(), Error>(Error::Stream) <==> v == AEC_STREAM_ERROR,
        Error::of_status(v) == Err::<(), Error>(Error::Data) <==> v == AEC_DATA_ERROR,
        Error::of_status(v) == Err::<(), Error>(Error::Memory) <==> v == AEC_MEM_ERROR,
{
}

} // verus!
