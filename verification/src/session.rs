//! The two kinds of session, and their life cycle.
//!
//! A session is made from the coder's answer to a start, and is active from
//! then on. While it is active it plans steps and takes the coder's answers
//! to them. Its end gives out the coder's state for the teardown, once, and
//! nothing brings an ended session back.

use crate::buffer::Buffer;
use crate::error::Error;
use crate::sys::{
    aec_stream, flush_value, internal_state, StepReply, StepRequest, AEC_FLUSH, AEC_NO_FLUSH,
    AEC_OK,
};
use core::mem::MaybeUninit;
use vstd::prelude::*;

verus! {

/// The input that a step left over: what stands behind the bytes that the
/// coder consumed.
pub open spec fn unconsumed(input: Seq<u8>, reply: &StepReply) -> Seq<u8> {
    input.skip(input.len() - reply.avail_in)
}

/// What a step returns, given whether the session had ended and what the
/// coder answered: the error, or the number of bytes to commit.
pub open spec fn step_result(ended: bool, reply: &StepReply) -> Result<nat, Error> {
    if ended {
        Err(Error::Stream)
    } else {
        match Error::of_status(reply.status) {
            Ok(()) => Ok(reply.written@.len()),
            Err(e) => Err(e),
        }
    }
}

/// Whether an end finds the coder's teardown due: the end of an active
/// session does, and no other.
pub open spec fn teardown_due(ended: bool) -> bool {
    !ended
}

/// The number of teardowns that fall due over `ends` ends in a row of one
/// session, which had ended before the first of them or had not.
pub open spec fn teardowns(ended: bool, ends: nat) -> nat
    decreases ends,
{
    if ends == 0 {
        0
    } else {
        (if teardown_due(ended) {
            1nat
        } else {
            0nat
        }) + teardowns(true, (ends - 1) as nat)
    }
}

/// However often a session is ended, the teardown falls due once if the
/// session was active and is ended at all, and never otherwise. An end after
/// the first finds nothing due.
pub proof fn lemma_teardown_once(ended: bool, ends: nat)
    ensures
        teardowns(ended, ends) == (if !ended && ends > 0 {
            1nat
        } else {
            0nat
        }),
        teardowns(true, ends) == 0,
    decreases ends,
{
    if ends > 0 {
        lemma_teardown_once(true, (ends - 1) as nat);
    }
}

/// An answer to the request that a session made for a step on `input` and
/// `output` can be taken: the coder left over no more input than there was,
/// and wrote no more than `output` can commit.
pub proof fn lemma_answer_can_be_taken<B: Buffer + ?Sized>(
    input: Seq<u8>,
    output: &B,
    request: StepRequest,
    reply: StepReply,
)
    requires
        request.avail_in == input.len(),
        request.avail_out <= output.limit(),
        reply.answers(&request),
    ensures
        reply.avail_in <= input.len(),
        reply.written@.len() <= output.limit(),
        unconsumed(input, &reply).len() == reply.avail_in,
{
}

fn started(strm: aec_stream, status: i32) -> (result: Result<aec_stream, Error>)
    ensures
        match result {
            Ok(record) => status == AEC_OK && record.live() && record.same_parameters(&strm),
            Err(e) => Error::of_status(status) == Err::<(), Error>(e),
        },
{
    match Error::from_int(status) {
        Ok(()) => Ok(
            aec_stream {
                bits_per_sample: strm.bits_per_sample,
                block_size: strm.block_size,
                rsi: strm.rsi,
                flags: strm.flags,
                state: Some(internal_state::allocated()),
            },
        ),
        Err(e) => Err(e),
    }
}

fn plan<B: Buffer + ?Sized>(strm: &aec_stream, input: &[u8], output: &B, flush: bool) -> (result:
    Result<StepRequest, Error>)
    ensures
        !strm.live() ==> result == Err::<StepRequest, Error>(Error::Stream),
        strm.live() ==> result.is_ok() && result.unwrap().avail_in == input@.len()
            && output.is_span(result.unwrap().avail_out) && result.unwrap().avail_out
            <= output.limit() && result.unwrap().flush == flush_value(flush),
{
    if !strm.is_live() {
        return Err(Error::Stream);
    }
    let avail_out: usize = output.write_info();
    Ok(
        StepRequest {
            avail_in: input.len(),
            avail_out,
            flush: if flush {
                AEC_FLUSH
            } else {
                AEC_NO_FLUSH
            },
        },
    )
}

fn commit<B: Buffer + ?Sized>(strm: &aec_stream, output: &mut B, reply: &StepReply) -> (result:
    Result<usize, Error>)
    requires
        reply.written@.len() <= old(output).limit(),
    ensures
        match result {
            Ok(produced) => {
                &&& step_result(!strm.live(), reply) == Ok::<nat, Error>(produced as nat)
                &&& final(output).holds_write(old(output), reply.written@)
            },
            Err(e) => {
                &&& step_result(!strm.live(), reply) == Err::<nat, Error>(e)
                &&& final(output).view() == old(output).view()
            },
        },
{
    if !strm.is_live() {
        return Err(Error::Stream);
    }
    match Error::from_int(reply.status) {
        Ok(()) => Ok(output.write_data(reply.written.as_slice())),
        Err(e) => Err(e),
    }
}

fn settle<'i, B: Buffer + ?Sized>(
    strm: &aec_stream,
    input: &'i [u8],
    output: &mut B,
    reply: &StepReply,
) -> (result: Result<(&'i [u8], usize), Error>)
    requires
        reply.avail_in <= input@.len(),
        reply.written@.len() <= old(output).limit(),
    ensures
        match result {
            Ok((rest, produced)) => {
                &&& step_result(!strm.live(), reply) == Ok::<nat, Error>(produced as nat)
                &&& rest@ == unconsumed(input@, reply)
                &&& final(output).holds_write(old(output), reply.written@)
            },
            Err(e) => {
                &&& step_result(!strm.live(), reply) == Err::<nat, Error>(e)
                &&& final(output).view() == old(output).view()
            },
        },
{
    match commit(strm, output, reply) {
        Ok(produced) => {
            let rest = vstd::slice::slice_subrange(
                input,
                input.len() - reply.avail_in,
                input.len(),
            );
            assert(rest@ =~= unconsumed(input@, reply));
            Ok((rest, produced))
        },
        Err(e) => Err(e),
    }
}

/// An encoding session.
#[derive(Debug)]
pub struct Encoder(aec_stream);

impl Encoder {
    /// The record of this session.
    pub closed spec fn stream(&self) -> aec_stream {
        self.0
    }

    /// Whether this session has ended.
    pub open spec fn ended(&self) -> bool {
        !self.stream().live()
    }

    /// The session that the coder started for `strm`, where `status` is what
    /// its start returned: a session for the coder's success code, and the
    /// error that the status stands for otherwise.
    pub(crate) fn new(strm: aec_stream, status: i32) -> (result: Result<Encoder, Error>)
        ensures
            match result {
                Ok(enc) => status == AEC_OK && !enc.ended() && enc.stream().same_parameters(&strm),
                Err(e) => Error::of_status(status) == Err::<(), Error>(e),
            },
    {
        match started(strm, status) {
            Ok(record) => Ok(Encoder(record)),
            Err(e) => Err(e),
        }
    }

    /// The record of this session, for the parameters that the coder is to
    /// see.
    pub fn record(&self) -> (record: &aec_stream)
        ensures
            *record == self.stream(),
    {
        &self.0
    }

    /// Ends this session. Gives out the coder's state if the session was
    /// active: the coder's teardown is then due, and its status goes to
    /// [`internal_state::release`]. Gives out nothing if the session had
    /// ended before.
    pub fn end(&mut self) -> (state: Option<internal_state>)
        ensures
            final(self).ended(),
            state.is_some() == teardown_due(old(self).ended()),
            final(self).stream().same_parameters(&old(self).stream()),
    {
        self.0.state.take()
    }

    /// Whether this session has ended.
    pub fn is_ended(&self) -> (ended: bool)
        ensures
            ended == self.ended(),
    {
        !self.0.is_live()
    }

    /// What the next step hands to the coder: all of `input`, the span of
    /// `output`, and the flush value for `flush`. An ended session asks for
    /// nothing.
    pub fn request<B: Buffer + ?Sized>(&self, input: &[u8], output: &B, flush: bool) -> (result:
        Result<StepRequest, Error>)
        ensures
            self.ended() ==> result == Err::<StepRequest, Error>(Error::Stream),
            !self.ended() ==> result.is_ok() && result.unwrap().avail_in == input@.len()
                && output.is_span(result.unwrap().avail_out) && result.unwrap().avail_out
                <= output.limit() && result.unwrap().flush == flush_value(flush),
    {
        plan(&self.0, input, output, flush)
    }

    /// Takes the coder's answer to a step on `input`: commits to `output` the
    /// bytes that the coder wrote, and returns the input that it left over
    /// with the number of bytes committed. An ended session, or a status
    /// other than success, gives the error and leaves `output` as it was.
    pub fn encode_generic<'i, B: Buffer + ?Sized>(
        &self,
        input: &'i [u8],
        output: &mut B,
        reply: &StepReply,
    ) -> (result: Result<(&'i [u8], usize), Error>)
        requires
            reply.avail_in <= input@.len(),
            reply.written@.len() <= old(output).limit(),
        ensures
            match result {
                Ok((rest, produced)) => {
                    &&& step_result(self.ended(), reply) == Ok::<nat, Error>(produced as nat)
                    &&& rest@ == unconsumed(input@, reply)
                    &&& final(output).holds_write(old(output), reply.written@)
                },
                Err(e) => {
                    &&& step_result(self.ended(), reply) == Err::<nat, Error>(e)
                    &&& final(output).view() == old(output).view()
                },
            },
    {
        settle(&self.0, input, output, reply)
    }

    /// The part of a step that needs no input: commits to `output` the
    /// bytes that the coder wrote and returns their number.
    pub(crate) fn commit<B: Buffer + ?Sized>(&self, output: &mut B, reply: &StepReply) -> (result:
        Result<usize, Error>)
        requires
            reply.written@.len() <= old(output).limit(),
        ensures
            match result {
                Ok(produced) => {
                    &&& step_result(self.ended(), reply) == Ok::<nat, Error>(produced as nat)
                    &&& final(output).holds_write(old(output), reply.written@)
                },
                Err(e) => {
                    &&& step_result(self.ended(), reply) == Err::<nat, Error>(e)
                    &&& final(output).view() == old(output).view()
                },
            },
    {
        commit(&self.0, output, reply)
    }

    /// [`Encoder::encode_generic`] into a slice of bytes.
    pub fn encode<'i>(&self, input: &'i [u8], output: &mut [u8], reply: &StepReply) -> (result:
        Result<(&'i [u8], usize), Error>)
        requires
            reply.avail_in <= input@.len(),
            reply.written@.len() <= old(output)@.len(),
        ensures
            match result {
                Ok((rest, produced)) => {
                    &&& step_result(self.ended(), reply) == Ok::<nat, Error>(produced as nat)
                    &&& rest@ == unconsumed(input@, reply)
                    &&& final(output)@ == reply.written@ + old(output)@.skip(produced as int)
                },
                Err(e) => {
                    &&& step_result(self.ended(), reply) == Err::<nat, Error>(e)
                    &&& final(output)@ == old(output)@
                },
            },
    {
        self.encode_generic(input, output, reply)
    }

    /// [`Encoder::encode_generic`] into a slice of bytes that are not yet
    /// initialized.
    pub fn encode_uninit<'i>(
        &self,
        input: &'i [u8],
        output: &mut [MaybeUninit<u8>],
        reply: &StepReply,
    ) -> (result: Result<(&'i [u8], usize), Error>)
        requires
            reply.avail_in <= input@.len(),
            reply.written@.len() <= old(output)@.len(),
        ensures
            match result {
                Ok((rest, produced)) => {
                    &&& step_result(self.ended(), reply) == Ok::<nat, Error>(produced as nat)
                    &&& rest@ == unconsumed(input@, reply)
                    &&& final(output).holds_write(old(output), reply.written@)
                },
                Err(e) => {
                    &&& step_result(self.ended(), reply) == Err::<nat, Error>(e)
                    &&& final(output)@ == old(output)@
                },
            },
    {
        self.encode_generic(input, output, reply)
    }

    /// [`Encoder::encode_generic`] into a vector.
    pub fn encode_vec<'i>(&self, input: &'i [u8], output: &mut Vec<u8>, reply: &StepReply) -> (result:
        Result<(&'i [u8], usize), Error>)
        requires
            old(output)@.len() + reply.written@.len() <= usize::MAX,
            reply.avail_in <= input@.len(),
        ensures
            match result {
                Ok((rest, produced)) => {
                    &&& step_result(self.ended(), reply) == Ok::<nat, Error>(produced as nat)
                    &&& rest@ == unconsumed(input@, reply)
                    &&& final(output)@ == old(output)@ + reply.written@
                },
                Err(e) => {
                    &&& step_result(self.ended(), reply) == Err::<nat, Error>(e)
                    &&& final(output)@ == old(output)@
                },
            },
    {
        self.encode_generic(input, output, reply)
    }
}

/// A decoding session.
#[derive(Debug)]
pub struct Decoder(aec_stream);

impl Decoder {
    /// The record of this session.
    pub closed spec fn stream(&self) -> aec_stream {
        self.0
    }

    /// Whether this session has ended.
    pub open spec fn ended(&self) -> bool {
        !self.stream().live()
    }

    /// The session that the coder started for `strm`, where `status` is what
    /// its start returned: a session for the coder's success code, and the
    /// error that the status stands for otherwise.
    pub(crate) fn new(strm: aec_stream, status: i32) -> (result: Result<Decoder, Error>)
        ensures
            match result {
                Ok(dec) => status == AEC_OK && !dec.ended() && dec.stream().same_parameters(&strm),
                Err(e) => Error::of_status(status) == Err::<(), Error>(e),
            },
    {
        match started(strm, status) {
            Ok(record) => Ok(Decoder(record)),
            Err(e) => Err(e),
        }
    }

    /// The record of this session, for the parameters that the coder is to
    /// see.
    pub fn record(&self) -> (record: &aec_stream)
        ensures
            *record == self.stream(),
    {
        &self.0
    }

    /// Ends this session. Gives out the coder's state if the session was
    /// active: the coder's teardown is then due, and its status goes to
    /// [`internal_state::release`]. Gives out nothing if the session had
    /// ended before.
    pub fn end(&mut self) -> (state: Option<internal_state>)
        ensures
            final(self).ended(),
            state.is_some() == teardown_due(old(self).ended()),
            final(self).stream().same_parameters(&old(self).stream()),
    {
        self.0.state.take()
    }

    /// Whether this session has ended.
    pub fn is_ended(&self) -> (ended: bool)
        ensures
            ended == self.ended(),
    {
        !self.0.is_live()
    }

    /// What the next step hands to the coder: all of `input`, the span of
    /// `output`, and the flush value for `flush`. An ended session asks for
    /// nothing.
    pub fn request<B: Buffer + ?Sized>(&self, input: &[u8], output: &B, flush: bool) -> (result:
        Result<StepRequest, Error>)
        ensures
            self.ended() ==> result == Err::<StepRequest, Error>(Error::Stream),
            !self.ended() ==> result.is_ok() && result.unwrap().avail_in == input@.len()
                && output.is_span(result.unwrap().avail_out) && result.unwrap().avail_out
                <= output.limit() && result.unwrap().flush == flush_value(flush),
    {
        plan(&self.0, input, output, flush)
    }

    /// Takes the coder's answer to a step on `input`: commits to `output` the
    /// bytes that the coder wrote, and returns the input that it left over
    /// with the number of bytes committed. An ended session, or a status
    /// other than success, gives the error and leaves `output` as it was.
    pub fn decode_generic<'i, B: Buffer + ?Sized>(
        &self,
        input: &'i [u8],
        output: &mut B,
        reply: &StepReply,
    ) -> (result: Result<(&'i [u8], usize), Error>)
        requires
            reply.avail_in <= input@.len(),
            reply.written@.len() <= old(output).limit(),
        ensures
            match result {
                Ok((rest, produced)) => {
                    &&& step_result(self.ended(), reply) == Ok::<nat, Error>(produced as nat)
                    &&& rest@ == unconsumed(input@, reply)
                    &&& final(output).holds_write(old(output), reply.written@)
                },
                Err(e) => {
                    &&& step_result(self.ended(), reply) == Err::<nat, Error>(e)
                    &&& final(output).view() == old(output).view()
                },
            },
    {
        settle(&self.0, input, output, reply)
    }

    /// The part of a step that needs no input: commits to `output` the
    /// bytes that the coder wrote and returns their number.
    pub(crate) fn commit<B: Buffer + ?Sized>(&self, output: &mut B, reply: &StepReply) -> (result:
        Result<usize, Error>)
        requires
            reply.written@.len() <= old(output).limit(),
        ensures
            match result {
                Ok(produced) => {
                    &&& step_result(self.ended(), reply) == Ok::<nat, Error>(produced as nat)
                    &&& final(output).holds_write(old(output), reply.written@)
                },
                Err(e) => {
                    &&& step_result(self.ended(), reply) == Err::<nat, Error>(e)
                    &&& final(output).view() == old(output).view()
                },
            },
    {
        commit(&self.0, output, reply)
    }

    /// [`Decoder::decode_generic`] into a slice of bytes.
    pub fn decode<'i>(&self, input: &'i [u8], output: &mut [u8], reply: &StepReply) -> (result:
        Result<(&'i [u8], usize), Error>)
        requires
            reply.avail_in <= input@.len(),
            reply.written@.len() <= old(output)@.len(),
        ensures
            match result {
                Ok((rest, produced)) => {
                    &&& step_result(self.ended(), reply) == Ok::<nat, Error>(produced as nat)
                    &&& rest@ == unconsumed(input@, reply)
                    &&& final(output)@ == reply.written@ + old(output)@.skip(produced as int)
                },
                Err(e) => {
                    &&& step_result(self.ended(), reply) == Err::<nat, Error>(e)
                    &&& final(output)@ == old(output)@
                },
            },
    {
        self.decode_generic(input, output, reply)
    }

    /// [`Decoder::decode_generic`] into a slice of bytes that are not yet
    /// initialized.
    pub fn decode_uninit<'i>(
        &self,
        input: &'i [u8],
        output: &mut [MaybeUninit<u8>],
        reply: &StepReply,
    ) -> (result: Result<(&'i [u8], usize), Error>)
        requires
            reply.avail_in <= input@.len(),
            reply.written@.len() <= old(output)@.len(),
        ensures
            match result {
                Ok((rest, produced)) => {
                    &&& step_result(self.ended(), reply) == Ok::<nat, Error>(produced as nat)
                    &&& rest@ == unconsumed(input@, reply)
                    &&& final(output).holds_write(old(output), reply.written@)
                },
                Err(e) => {
                    &&& step_result(self.ended(), reply) == Err::<nat, Error>(e)
                    &&& final(output)@ == old(output)@
                },
            },
    {
        self.decode_generic(input, output, reply)
    }

    /// [`Decoder::decode_generic`] into a vector.
    pub fn decode_vec<'i>(&self, input: &'i [u8], output: &mut Vec<u8>, reply: &StepReply) -> (result:
        Result<(&'i [u8], usize), Error>)
        requires
            old(output)@.len() + reply.written@.len() <= usize::MAX,
            reply.avail_in <= input@.len(),
        ensures
            match result {
                Ok((rest, produced)) => {
                    &&& step_result(self.ended(), reply) == Ok::<nat, Error>(produced as nat)
                    &&& rest@ == unconsumed(input@, reply)
                    &&& final(output)@ == old(output)@ + reply.written@
                },
                Err(e) => {
                    &&& step_result(self.ended(), reply) == Err::<nat, Error>(e)
                    &&& final(output)@ == old(output)@
                },
            },
    {
        self.decode_generic(input, output, reply)
    }
}

} // verus!
