//! A streaming front for a push-style adaptive entropy coder.
//!
//! The coder works on a record of counts and on a private state that it
//! allocates when a session starts and frees when the session ends. This
//! crate holds what stands around that: the status codes and what they mean,
//! the buffers that take the coder's output, the two kinds of session with
//! their life cycle, the rounds of a whole-buffer run, and the pull and the
//! push adapter. None of it calls the coder or moves a byte on a stream.
//! Each function says what is to be handed to the coder, or takes what the
//! coder handed back: the caller makes the calls, and this crate decides.

pub mod buffer;
pub mod configuration;
pub mod error;
pub mod flags;
pub mod io;
pub mod session;
pub mod sys;
pub mod sz;

pub use buffer::{Buffer, DEFAULT_BUFFER_SIZE};
pub use configuration::{Configuration, Round, Verdict};
pub use error::{Error, ErrorKind};
pub use flags::Flags;
pub use io::{FillAction, ReadAction, ReadStep, Reader, WriteAction, WriteStep, Writer};
pub use session::{Decoder, Encoder};
