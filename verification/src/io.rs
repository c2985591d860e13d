//! The pull and the push adapter.
//!
//! A reader turns a byte source into the coded form of what the source
//! gives; a writer sends to a byte sink the coded form of what is written to
//! it. Either holds a session and the source or sink, and neither calls
//! them: a read or a write goes forward in rounds, and in each round the
//! adapter says what is due (bytes from the source, a step of the coder, the
//! end of the call) and takes what came of it.

use crate::buffer::{Buffer, DEFAULT_BUFFER_SIZE};
use crate::error::Error;
use crate::session::{step_result, teardown_due, Decoder, Encoder};
use crate::sys::{flush_value, internal_state, StepReply, StepRequest, AEC_FLUSH, AEC_NO_FLUSH};
use vstd::prelude::*;

verus! {

/// What is due at the head of a round of a read.
#[derive(Clone, Copy, Debug, PartialEq, Eq, Structural)]
pub enum ReadAction {
    /// The source is to give the bytes that it has buffered, without
    /// consuming them.
    Fill,
    /// The read is over, with this many bytes in the destination.
    Return(usize),
}

/// What is due once the source has given its bytes.
#[derive(Clone, Copy, Debug, PartialEq, Eq, Structural)]
pub enum FillAction {
    /// The coder is to make this step, on the bytes that the source gave and
    /// the free part of the destination.
    Step(StepRequest),
    /// The read is over, with this many bytes in the destination.
    Return(usize),
}

/// What a step of a read came to.
#[derive(Debug)]
pub struct ReadStep {
    /// The number of bytes that the source is to mark as consumed.
    pub consumed: usize,
    /// The number of bytes in the destination.
    pub produced: usize,
    /// The coder's state, where the step has ended the session: the teardown
    /// is due, and only if it succeeds does the read go on to `next`.
    pub state: Option<internal_state>,
    /// What is due next.
    pub next: ReadAction,
}

/// What is due at the head of a round of a write.
#[derive(Clone, Copy, Debug, PartialEq, Eq, Structural)]
pub enum WriteAction {
    /// The coder is to make this step, on the bytes not yet consumed and the
    /// writer's buffer.
    Step(StepRequest),
    /// The write is over, with this many bytes consumed.
    Return(usize),
}

/// What a step of a write came to.
#[derive(Clone, Copy, Debug, PartialEq, Eq, Structural)]
pub struct WriteStep {
    /// The number of bytes consumed so far.
    pub consumed: usize,
    /// Whether the writer's buffer holds bytes that are to go to the sink.
    pub forward: bool,
}

/// A destination with `data` placed at offset `at`.
pub open spec fn placed(buf: Seq<u8>, at: int, data: Seq<u8>) -> Seq<u8> {
    buf.take(at) + data + buf.skip(at + data.len())
}

/// What is due at the head of a round of a read into a destination of
/// `len` bytes that holds `produced` bytes so far.
pub open spec fn read_head(len: nat, produced: nat) -> ReadAction {
    if produced < len {
        ReadAction::Fill
    } else {
        ReadAction::Return(produced as usize)
    }
}

/// The step that a read asks for: all that the source gave, the free part
/// of the destination, and a flush once the source gives nothing more.
pub open spec fn read_request(given: nat, len: nat, produced: nat) -> StepRequest {
    StepRequest {
        avail_in: given as usize,
        avail_out: (len - produced) as usize,
        flush: flush_value(given == 0),
    }
}

/// Whether `result` is what the head of a round of a write asks for, when
/// `consumed` bytes of `len` are consumed: the end of the write once all are
/// consumed; else a step on the rest with no flush, or the error of a session
/// that has ended.
pub open spec fn write_asks(
    result: Result<WriteAction, Error>,
    len: nat,
    consumed: nat,
    ended: bool,
) -> bool {
    if consumed >= len {
        result == Ok::<WriteAction, Error>(WriteAction::Return(consumed as usize))
    } else if ended {
        result == Err::<WriteAction, Error>(Error::Stream)
    } else {
        match result {
            Ok(WriteAction::Step(request)) => request.avail_in == len - consumed && request.flush
                == flush_value(false),
            _ => false,
        }
    }
}

/// A pull adapter: a session and the source that it reads from.
#[derive(Clone, Debug)]
pub struct Reader<EncDec, T> {
    encdec: EncDec,
    inner: T,
}

impl<EncDec, T> Reader<EncDec, T> {
    /// The session of this reader.
    pub closed spec fn session(&self) -> EncDec {
        self.encdec
    }

    /// The source of this reader.
    pub closed spec fn source(&self) -> T {
        self.inner
    }

    /// A reader of `inner` through `encdec`.
    pub fn new_unbuffered(encdec: EncDec, inner: T) -> (reader: Self)
        ensures
            reader.session() == encdec,
            reader.source() == inner,
    {
        Self { encdec, inner }
    }

    /// Gives up the reader for its source.
    pub fn into_inner(self) -> (inner: T)
        ensures
            inner == self.source(),
    {
        self.inner
    }

    /// The source.
    pub fn get_ref(&self) -> (inner: &T)
        ensures
            *inner == self.source(),
    {
        &self.inner
    }

    /// The source, to change it. The session stays as it is.
    pub fn get_mut(&mut self) -> (inner: &mut T)
        ensures
            *inner == old(self).source(),
            final(self).source() == *final(inner),
            final(self).session() == old(self).session(),
    {
        &mut self.inner
    }
}

impl<T> Reader<Encoder, T> {
    /// What a read into `buf` does first: nothing if the session has ended
    /// or `buf` is empty, and else it asks the source.
    pub fn read_start(&self, buf: &[u8]) -> (action: ReadAction)
        ensures
            action == (if self.session().ended() {
                ReadAction::Return(0)
            } else {
                read_head(buf@.len(), 0)
            }),
    {
        if self.encdec.is_ended() {
            return ReadAction::Return(0);
        }
        if 0 < buf.len() {
            ReadAction::Fill
        } else {
            ReadAction::Return(0)
        }
    }

    /// What a read that has started does once the source has given `given`
    /// bytes, when `buf` holds `produced` bytes. Where the source gave nothing
    /// and `buf` holds output already, the read is over: the flush is left to
    /// the next read, which has all of its destination for it. Else a step
    /// is due, on what the source gave and the free part of `buf`, with a
    /// flush if the source gave nothing.
    pub fn read_filled(given: usize, buf: &[u8], produced: usize) -> (action: FillAction)
        requires
            produced <= buf@.len(),
        ensures
            action == (if given == 0 && produced > 0 {
                FillAction::Return(produced)
            } else {
                FillAction::Step(read_request(given as nat, buf@.len(), produced as nat))
            }),
    {
        if given == 0 && produced > 0 {
            return FillAction::Return(produced);
        }
        let tail = vstd::slice::slice_subrange(buf, produced, buf.len());
        FillAction::Step(
            StepRequest {
                avail_in: given,
                avail_out: tail.write_info(),
                flush: if given == 0 {
                    AEC_FLUSH
                } else {
                    AEC_NO_FLUSH
                },
            },
        )
    }

    /// Takes the coder's answer to the step that [`Reader::read_filled`]
    /// asked for when the source had given `given` bytes and `buf` held
    /// `produced` bytes: places the bytes that the coder wrote behind those,
    /// and says how many bytes the source is to mark as consumed. A step on
    /// no input was the flush, and ends the session and the read. After any
    /// other step the read goes on while `buf` has room.
    pub fn read(&mut self, given: usize, buf: &mut [u8], produced: usize, reply: &StepReply) -> (result:
        Result<ReadStep, Error>)
        requires
            produced <= old(buf)@.len(),
            reply.avail_in <= given,
            reply.written@.len() <= old(buf)@.len() - produced,
        ensures
            match result {
                Ok(step) => {
                    &&& step_result(old(self).session().ended(), reply) == Ok::<nat, Error>(
                        reply.written@.len(),
                    )
                    &&& step.consumed == given - reply.avail_in
                    &&& step.produced == produced + reply.written@.len()
                    &&& final(buf)@ == placed(old(buf)@, produced as int, reply.written@)
                    &&& step.state.is_some() == (given == 0)
                    &&& final(self).session().ended() == (given == 0)
                    &&& step.next == (if given == 0 {
                        ReadAction::Return(step.produced)
                    } else {
                        read_head(old(buf)@.len(), step.produced as nat)
                    })
                },
                Err(e) => {
                    &&& step_result(old(self).session().ended(), reply) == Err::<nat, Error>(e)
                    &&& final(buf)@ == old(buf)@
                    &&& final(self).session() == old(self).session()
                },
            },
            final(self).source() == old(self).source(),
            final(self).session().stream().same_parameters(&old(self).session().stream()),
    {
        let len: usize = buf.len();
        let (head, tail) = buf.split_at_mut(produced);
        match self.encdec.commit(tail, reply) {
            Ok(out) => {
                assert(head@ + tail@ =~= placed(old(buf)@, produced as int, reply.written@));
                let consumed: usize = given - reply.avail_in;
                let produced: usize = produced + out;
                if given == 0 {
                    let state = self.encdec.end();
                    Ok(ReadStep { consumed, produced, state, next: ReadAction::Return(produced) })
                } else if produced < len {
                    Ok(ReadStep { consumed, produced, state: None, next: ReadAction::Fill })
                } else {
                    Ok(
                        ReadStep {
                            consumed,
                            produced,
                            state: None,
                            next: ReadAction::Return(produced),
                        },
                    )
                }
            },
            Err(e) => {
                assert(head@ + tail@ =~= old(buf)@);
                Err(e)
            },
        }
    }

    /// Ends the session of this reader, as [`Encoder::end`] does.
    pub fn finish(&mut self) -> (state: Option<internal_state>)
        ensures
            final(self).session().ended(),
            state.is_some() == teardown_due(old(self).session().ended()),
            final(self).session().stream().same_parameters(&old(self).session().stream()),
            final(self).source() == old(self).source(),
    {
        self.encdec.end()
    }
}

impl<T> Reader<Decoder, T> {
    /// What a read into `buf` does first: nothing if the session has ended
    /// or `buf` is empty, and else it asks the source.
    pub fn read_start(&self, buf: &[u8]) -> (action: ReadAction)
        ensures
            action == (if self.session().ended() {
                ReadAction::Return(0)
            } else {
                read_head(buf@.len(), 0)
            }),
    {
        if self.encdec.is_ended() {
            return ReadAction::Return(0);
        }
        if 0 < buf.len() {
            ReadAction::Fill
        } else {
            ReadAction::Return(0)
        }
    }

    /// What a read that has started does once the source has given `given`
    /// bytes, when `buf` holds `produced` bytes: a step is due, on what the
    /// source gave and the free part of `buf`, with a flush if the source
    /// gave nothing.
    pub fn read_filled(given: usize, buf: &[u8], produced: usize) -> (action: FillAction)
        requires
            produced <= buf@.len(),
        ensures
            action == FillAction::Step(read_request(given as nat, buf@.len(), produced as nat)),
    {
        let tail = vstd::slice::slice_subrange(buf, produced, buf.len());
        FillAction::Step(
            StepRequest {
                avail_in: given,
                avail_out: tail.write_info(),
                flush: if given == 0 {
                    AEC_FLUSH
                } else {
                    AEC_NO_FLUSH
                },
            },
        )
    }

    /// Takes the coder's answer to the step that [`Reader::read_filled`]
    /// asked for when the source had given `given` bytes and `buf` held
    /// `produced` bytes: places the bytes that the coder wrote behind those,
    /// and says how many bytes the source is to mark as consumed. A step on
    /// no input was the flush, and ends the session and the read. After any
    /// other step the read goes on while `buf` has room.
    pub fn read(&mut self, given: usize, buf: &mut [u8], produced: usize, reply: &StepReply) -> (result:
        Result<ReadStep, Error>)
        requires
            produced <= old(buf)@.len(),
            reply.avail_in <= given,
            reply.written@.len() <= old(buf)@.len() - produced,
        ensures
            match result {
                Ok(step) => {
                    &&& step_result(old(self).session().ended(), reply) == Ok::<nat, Error>(
                        reply.written@.len(),
                    )
                    &&& step.consumed == given - reply.avail_in
                    &&& step.produced == produced + reply.written@.len()
                    &&& final(buf)@ == placed(old(buf)@, produced as int, reply.written@)
                    &&& step.state.is_some() == (given == 0)
                    &&& final(self).session().ended() == (given == 0)
                    &&& step.next == (if given == 0 {
                        ReadAction::Return(step.produced)
                    } else {
                        read_head(old(buf)@.len(), step.produced as nat)
                    })
                },
                Err(e) => {
                    &&& step_result(old(self).session().ended(), reply) == Err::<nat, Error>(e)
                    &&& final(buf)@ == old(buf)@
                    &&& final(self).session() == old(self).session()
                },
            },
            final(self).source() == old(self).source(),
            final(self).session().stream().same_parameters(&old(self).session().stream()),
    {
        let len: usize = buf.len();
        let (head, tail) = buf.split_at_mut(produced);
        match self.encdec.commit(tail, reply) {
            Ok(out) => {
                assert(head@ + tail@ =~= placed(old(buf)@, produced as int, reply.written@));
                let consumed: usize = given - reply.avail_in;
                let produced: usize = produced + out;
                if given == 0 {
                    let state = self.encdec.end();
                    Ok(ReadStep { consumed, produced, state, next: ReadAction::Return(produced) })
                } else if produced < len {
                    Ok(ReadStep { consumed, produced, state: None, next: ReadAction::Fill })
                } else {
                    Ok(
                        ReadStep {
                            consumed,
                            produced,
                            state: None,
                            next: ReadAction::Return(produced),
                        },
                    )
                }
            },
            Err(e) => {
                assert(head@ + tail@ =~= old(buf)@);
                Err(e)
            },
        }
    }

    /// Ends the session of this reader, as [`Decoder::end`] does.
    pub fn finish(&mut self) -> (state: Option<internal_state>)
        ensures
            final(self).session().ended(),
            state.is_some() == teardown_due(old(self).session().ended()),
            final(self).session().stream().same_parameters(&old(self).session().stream()),
            final(self).source() == old(self).source(),
    {
        self.encdec.end()
    }
}

/// A push adapter: a session, the sink that it writes to, and a buffer
/// that takes the coder's output on its way to the sink.
#[derive(Clone, Debug)]
pub struct Writer<EncDec, T> {
    encdec: EncDec,
    buffer: Vec<u8>,
    inner: T,
}

impl<EncDec, T> Writer<EncDec, T> {
    /// The session of this writer.
    pub closed spec fn session(&self) -> EncDec {
        self.encdec
    }

    /// The sink of this writer.
    pub closed spec fn sink(&self) -> T {
        self.inner
    }

    /// The bytes in this writer's buffer.
    pub closed spec fn staged(&self) -> Seq<u8> {
        self.buffer@
    }

    /// A writer to `inner` through `encdec`, with a buffer of the default
    /// size.
    pub fn new(encdec: EncDec, inner: T) -> (writer: Self)
        ensures
            writer.session() == encdec,
            writer.sink() == inner,
            writer.staged() == Seq::<u8>::empty(),
    {
        Self::with_capacity(encdec, DEFAULT_BUFFER_SIZE, inner)
    }

    /// A writer to `inner` through `encdec`, with a buffer that can take
    /// `capacity` bytes.
    pub fn with_capacity(encdec: EncDec, capacity: usize, inner: T) -> (writer: Self)
        ensures
            writer.session() == encdec,
            writer.sink() == inner,
            writer.staged() == Seq::<u8>::empty(),
    {
        Self { encdec, buffer: Vec::with_capacity(capacity), inner }
    }

    /// Gives up the writer for its sink.
    pub fn into_inner(self) -> (inner: T)
        ensures
            inner == self.sink(),
    {
        self.inner
    }

    /// The sink.
    pub fn get_ref(&self) -> (inner: &T)
        ensures
            *inner == self.sink(),
    {
        &self.inner
    }

    /// The sink, to change it. The session and the buffer stay as they are.
    pub fn get_mut(&mut self) -> (inner: &mut T)
        ensures
            *inner == old(self).sink(),
            final(self).sink() == *final(inner),
            final(self).session() == old(self).session(),
            final(self).staged() == old(self).staged(),
    {
        &mut self.inner
    }

    /// The bytes in the buffer, which the last step produced, and the sink
    /// that they are to go to.
    pub fn forward(&mut self) -> (parts: (&[u8], &mut T))
        ensures
            parts.0@ == old(self).staged(),
            *parts.1 == old(self).sink(),
            final(self).sink() == *final(parts.1),
            final(self).staged() == old(self).staged(),
            final(self).session() == old(self).session(),
    {
        (self.buffer.as_slice(), &mut self.inner)
    }
}

impl<T> Writer<Encoder, T> {
    /// What a write of `buf` does first: nothing if the session has ended or
    /// `buf` is empty. Else the buffer is emptied and a step is due, on all
    /// of `buf`, with no flush.
    pub fn write_start(&mut self, buf: &[u8]) -> (action: WriteAction)
        ensures
            old(self).session().ended() || buf@.len() == 0 ==> action == WriteAction::Return(0)
                && final(self).staged() == old(self).staged(),
            !old(self).session().ended() && buf@.len() > 0 ==> write_asks(
                Ok::<WriteAction, Error>(action),
                buf@.len(),
                0,
                false,
            ) && final(self).staged() == Seq::<u8>::empty(),
            final(self).session() == old(self).session(),
            final(self).sink() == old(self).sink(),
    {
        if self.encdec.is_ended() {
            return WriteAction::Return(0);
        }
        match self.write_request(buf, 0) {
            Ok(action) => action,
            Err(_) => WriteAction::Return(0),
        }
    }

    /// What is due at the head of a round of a write of `buf`, of which
    /// `consumed` bytes are consumed: the write is over once all of `buf` is
    /// consumed. Else the buffer is emptied and a step is due, on the rest of
    /// `buf`, with no flush.
    pub fn write_request(&mut self, buf: &[u8], consumed: usize) -> (result: Result<
        WriteAction,
        Error,
    >)
        requires
            consumed <= buf@.len(),
        ensures
            write_asks(result, buf@.len(), consumed as nat, old(self).session().ended()),
            consumed == buf@.len() ==> final(self).staged() == old(self).staged(),
            consumed < buf@.len() ==> final(self).staged() == Seq::<u8>::empty(),
            final(self).session() == old(self).session(),
            final(self).sink() == old(self).sink(),
    {
        if consumed < buf.len() {
            self.buffer.clear();
            let rest = vstd::slice::slice_subrange(buf, consumed, buf.len());
            match self.encdec.request(rest, &self.buffer, false) {
                Ok(request) => Ok(WriteAction::Step(request)),
                Err(e) => Err(e),
            }
        } else {
            Ok(WriteAction::Return(consumed))
        }
    }

    /// Takes the coder's answer to the step that [`Writer::write_request`]
    /// asked for when `consumed` bytes of `buf` were consumed: puts the bytes
    /// that the coder wrote into the buffer, and says how far `buf` is
    /// consumed now and whether the buffer holds bytes for the sink.
    pub fn write(&mut self, buf: &[u8], consumed: usize, reply: &StepReply) -> (result: Result<
        WriteStep,
        Error,
    >)
        requires
            consumed <= buf@.len(),
            reply.avail_in <= buf@.len() - consumed,
            old(self).staged().len() + reply.written@.len() <= usize::MAX,
        ensures
            match result {
                Ok(step) => {
                    &&& step_result(old(self).session().ended(), reply) == Ok::<nat, Error>(
                        reply.written@.len(),
                    )
                    &&& step.consumed == buf@.len() - reply.avail_in
                    &&& step.forward == (reply.written@.len() > 0)
                    &&& final(self).staged() == old(self).staged() + reply.written@
                },
                Err(e) => {
                    &&& step_result(old(self).session().ended(), reply) == Err::<nat, Error>(e)
                    &&& final(self).staged() == old(self).staged()
                },
            },
            final(self).session() == old(self).session(),
            final(self).sink() == old(self).sink(),
    {
        let rest = vstd::slice::slice_subrange(buf, consumed, buf.len());
        match self.encdec.encode_vec(rest, &mut self.buffer, reply) {
            Ok((rest, out)) => Ok(WriteStep { consumed: buf.len() - rest.len(), forward: out > 0 }),
            Err(e) => Err(e),
        }
    }

    /// What a flush does first: nothing if the session has ended. Else the
    /// buffer is emptied and a step is due, on no input, with a flush.
    pub fn flush_request(&mut self) -> (request: Option<StepRequest>)
        ensures
            old(self).session().ended() ==> request.is_none() && final(self).staged() == old(
                self,
            ).staged(),
            !old(self).session().ended() ==> request.is_some() && request.unwrap().avail_in == 0
                && request.unwrap().flush == flush_value(true) && final(self).staged()
                == Seq::<u8>::empty(),
            final(self).session() == old(self).session(),
            final(self).sink() == old(self).sink(),
    {
        if self.encdec.is_ended() {
            return None;
        }
        self.buffer.clear();
        let nothing: [u8; 0] = [];
        match self.encdec.request(nothing.as_slice(), &self.buffer, true) {
            Ok(request) => Some(request),
            Err(_) => None,
        }
    }

    /// Takes the coder's answer to the step that [`Writer::flush_request`]
    /// asked for: puts the bytes that the coder wrote into the buffer, and
    /// says whether the buffer holds bytes for the sink. Once those are
    /// forwarded, the session is to end, by [`Writer::finish`], and the sink
    /// to be flushed.
    pub fn flush(&mut self, reply: &StepReply) -> (result: Result<bool, Error>)
        requires
            reply.avail_in == 0,
            old(self).staged().len() + reply.written@.len() <= usize::MAX,
        ensures
            match result {
                Ok(forward) => {
                    &&& step_result(old(self).session().ended(), reply) == Ok::<nat, Error>(
                        reply.written@.len(),
                    )
                    &&& forward == (reply.written@.len() > 0)
                    &&& final(self).staged() == old(self).staged() + reply.written@
                },
                Err(e) => {
                    &&& step_result(old(self).session().ended(), reply) == Err::<nat, Error>(e)
                    &&& final(self).staged() == old(self).staged()
                },
            },
            final(self).session() == old(self).session(),
            final(self).sink() == old(self).sink(),
    {
        let nothing: [u8; 0] = [];
        match self.encdec.encode_vec(nothing.as_slice(), &mut self.buffer, reply) {
            Ok((_, out)) => Ok(out > 0),
            Err(e) => Err(e),
        }
    }

    /// Ends the session of this writer, as [`Encoder::end`] does.
    pub fn finish(&mut self) -> (state: Option<internal_state>)
        ensures
            final(self).session().ended(),
            state.is_some() == teardown_due(old(self).session().ended()),
            final(self).session().stream().same_parameters(&old(self).session().stream()),
            final(self).sink() == old(self).sink(),
            final(self).staged() == old(self).staged(),
    {
        self.encdec.end()
    }
}

impl<T> Writer<Decoder, T> {
    /// What a write of `buf` does first: nothing if the session has ended or
    /// `buf` is empty. Else the buffer is emptied and a step is due, on all
    /// of `buf`, with no flush.
    pub fn write_start(&mut self, buf: &[u8]) -> (action: WriteAction)
        ensures
            old(self).session().ended() || buf@.len() == 0 ==> action == WriteAction::Return(0)
                && final(self).staged() == old(self).staged(),
            !old(self).session().ended() && buf@.len() > 0 ==> write_asks(
                Ok::<WriteAction, Error>(action),
                buf@.len(),
                0,
                false,
            ) && final(self).staged() == Seq::<u8>::empty(),
            final(self).session() == old(self).session(),
            final(self).sink() == old(self).sink(),
    {
        if self.encdec.is_ended() {
            return WriteAction::Return(0);
        }
        match self.write_request(buf, 0) {
            Ok(action) => action,
            Err(_) => WriteAction::Return(0),
        }
    }

    /// What is due at the head of a round of a write of `buf`, of which
    /// `consumed` bytes are consumed: the write is over once all of `buf` is
    /// consumed. Else the buffer is emptied and a step is due, on the rest of
    /// `buf`, with no flush.
    pub fn write_request(&mut self, buf: &[u8], consumed: usize) -> (result: Result<
        WriteAction,
        Error,
    >)
        requires
            consumed <= buf@.len(),
        ensures
            write_asks(result, buf@.len(), consumed as nat, old(self).session().ended()),
            consumed == buf@.len() ==> final(self).staged() == old(self).staged(),
            consumed < buf@.len() ==> final(self).staged() == Seq::<u8>::empty(),
            final(self).session() == old(self).session(),
            final(self).sink() == old(self).sink(),
    {
        if consumed < buf.len() {
            self.buffer.clear();
            let rest = vstd::slice::slice_subrange(buf, consumed, buf.len());
            match self.encdec.request(rest, &self.buffer, false) {
                Ok(request) => Ok(WriteAction::Step(request)),
                Err(e) => Err(e),
            }
        } else {
            Ok(WriteAction::Return(consumed))
        }
    }

    /// Takes the coder's answer to the step that [`Writer::write_request`]
    /// asked for when `consumed` bytes of `buf` were consumed: puts the bytes
    /// that the coder wrote into the buffer, and says how far `buf` is
    /// consumed now and whether the buffer holds bytes for the sink.
    pub fn write(&mut self, buf: &[u8], consumed: usize, reply: &StepReply) -> (result: Result<
        WriteStep,
        Error,
    >)
        requires
            consumed <= buf@.len(),
            reply.avail_in <= buf@.len() - consumed,
            old(self).staged().len() + reply.written@.len() <= usize::MAX,
        ensures
            match result {
                Ok(step) => {
                    &&& step_result(old(self).session().ended(), reply) == Ok::<nat, Error>(
                        reply.written@.len(),
                    )
                    &&& step.consumed == buf@.len() - reply.avail_in
                    &&& step.forward == (reply.written@.len() > 0)
                    &&& final(self).staged() == old(self).staged() + reply.written@
                },
                Err(e) => {
                    &&& step_result(old(self).session().ended(), reply) == Err::<nat, Error>(e)
                    &&& final(self).staged() == old(self).staged()
                },
            },
            final(self).session() == old(self).session(),
            final(self).sink() == old(self).sink(),
    {
        let rest = vstd::slice::slice_subrange(buf, consumed, buf.len());
        match self.encdec.decode_vec(rest, &mut self.buffer, reply) {
            Ok((rest, out)) => Ok(WriteStep { consumed: buf.len() - rest.len(), forward: out > 0 }),
            Err(e) => Err(e),
        }
    }

    /// Ends the session of this writer, as [`Decoder::end`] does.
    pub fn finish(&mut self) -> (state: Option<internal_state>)
        ensures
            final(self).session().ended(),
            state.is_some() == teardown_due(old(self).session().ended()),
            final(self).session().stream().same_parameters(&old(self).session().stream()),
            final(self).sink() == old(self).sink(),
            final(self).staged() == old(self).staged(),
    {
        self.encdec.end()
    }
}

} // verus!
