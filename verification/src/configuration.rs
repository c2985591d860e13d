//! The parameters of a session, and the rounds of a whole-buffer run.
//!
//! A whole-buffer run codes one input in memory into a vector. It is a
//! session that steps until the input is used up, and that sees to it that
//! the vector has room: whenever a step leaves the vector's capacity used
//! up, the capacity grows and the step is made again.

use crate::buffer::{capacity, DEFAULT_BUFFER_SIZE};
use crate::error::Error;
use crate::flags::Flags;
use crate::io::{Reader, Writer};
use crate::session::{step_result, unconsumed, Decoder, Encoder};
use crate::sys::{aec_stream, flush_value, StepReply, StepRequest, AEC_OK};
use vstd::prelude::*;

verus! {

/// What follows a round of a whole-buffer run.
#[derive(Clone, Copy, Debug, PartialEq, Eq, Structural)]
pub enum Round {
    /// Another round is due, on the input that was left over.
    Again,
    /// The run is over, and the session is to end.
    Done,
}

/// How a round of a whole-buffer run came out.
#[derive(Clone, Copy, Debug, PartialEq, Eq, Structural)]
pub enum Verdict {
    /// The vector's capacity is used up: it is to grow, and another round is
    /// due.
    Grow,
    /// Another round is due.
    Again,
    /// The run is over.
    Done,
}

/// How a round of an encoding run came out, one that was a flush or was
/// not, left `rest` bytes of input over, and left `len` bytes in a vector
/// of capacity `capacity`. A full vector grows, whatever else holds: the
/// coder may have more to write. Else the run is over once a flush has
/// left no input over.
pub open spec fn encode_verdict_of(flushed: bool, rest: nat, len: nat, capacity: nat) -> Verdict {
    if len == capacity {
        Verdict::Grow
    } else if rest == 0 && flushed {
        Verdict::Done
    } else {
        Verdict::Again
    }
}

/// How a round of a decoding run came out, one that left `rest` bytes of
/// input over and `len` bytes in a vector of capacity `capacity`. The run is
/// over once no input is left over. Else a full vector grows.
pub open spec fn decode_verdict_of(rest: nat, len: nat, capacity: nat) -> Verdict {
    if rest == 0 {
        Verdict::Done
    } else if len == capacity {
        Verdict::Grow
    } else {
        Verdict::Again
    }
}

/// A round that leaves the vector's capacity used up never ends an encoding
/// run, and ends a decoding run only where it left no input over: the
/// capacity grows and another round follows. So it is with a vector of no
/// capacity at all.
pub proof fn lemma_full_vector_grows(flushed: bool, rest: nat, len: nat)
    ensures
        encode_verdict_of(flushed, rest, len, len) == Verdict::Grow,
        rest > 0 ==> decode_verdict_of(rest, len, len) == Verdict::Grow,
        encode_verdict_of(flushed, rest, 0, 0) == Verdict::Grow,
{
}

/// What a vector holds after the rounds of a run have committed the writes
/// `written` to it, in their order, when it held `before`.
pub open spec fn after_rounds(before: Seq<u8>, written: Seq<Seq<u8>>) -> Seq<u8>
    decreases written.len(),
{
    if written.len() == 0 {
        before
    } else {
        after_rounds(before, written.drop_last()) + written.last()
    }
}

/// A run leaves what the vector held where it was, and what stands behind
/// that is what the same run gives to an empty vector.
pub proof fn lemma_rounds_keep_prefix(before: Seq<u8>, written: Seq<Seq<u8>>)
    ensures
        after_rounds(before, written).len() >= before.len(),
        after_rounds(before, written).take(before.len() as int) == before,
        after_rounds(before, written).skip(before.len() as int) == after_rounds(
            Seq::<u8>::empty(),
            written,
        ),
    decreases written.len(),
{
    if written.len() == 0 {
        assert(before.take(before.len() as int) =~= before);
        assert(before.skip(before.len() as int) =~= Seq::<u8>::empty());
    } else {
        lemma_rounds_keep_prefix(before, written.drop_last());
        let prior = after_rounds(before, written.drop_last());
        let last = written.last();
        assert((prior + last).take(before.len() as int) =~= prior.take(before.len() as int));
        assert((prior + last).skip(before.len() as int) =~= prior.skip(before.len() as int)
            + last);
    }
}

/// The parameters of a session.
#[derive(Debug)]
pub struct Configuration(aec_stream);

impl Clone for Configuration {
    /// A configuration with the same four parameters.
    fn clone(&self) -> (conf: Self)
        ensures
            conf.stream().same_parameters(&self.stream()),
            !conf.stream().live(),
    {
        Configuration(
            aec_stream {
                bits_per_sample: self.0.bits_per_sample,
                block_size: self.0.block_size,
                rsi: self.0.rsi,
                flags: self.0.flags,
                state: None,
            },
        )
    }
}

impl Configuration {
    /// The record of this configuration.
    pub closed spec fn stream(&self) -> aec_stream {
        self.0
    }

    /// A configuration of `bits_per_sample` bits per sample, blocks of
    /// `block_size` samples, a reference sample every `rsi` blocks, and the
    /// flags `flags`. Each number is cut to its lower 32 bits. Whether the
    /// coder accepts the parameters shows when a session starts.
    pub fn new(bits_per_sample: usize, block_size: usize, rsi: usize, flags: Flags) -> (conf: Self)
        ensures
            conf.stream().bits_per_sample == bits_per_sample as u32,
            conf.stream().block_size == block_size as u32,
            conf.stream().rsi == rsi as u32,
            conf.stream().flags == flags@,
            !conf.stream().live(),
    {
        Configuration(
            aec_stream {
                bits_per_sample: #[verifier::truncate]
                (bits_per_sample as u32),
                block_size: #[verifier::truncate]
                (block_size as u32),
                rsi: #[verifier::truncate]
                (rsi as u32),
                flags: flags.bits(),
                state: None,
            },
        )
    }

    /// The record of this configuration, for the parameters that the coder
    /// is to see at a start.
    pub fn record(&self) -> (record: &aec_stream)
        ensures
            *record == self.stream(),
    {
        &self.0
    }

    /// The encoding session that the coder started for this configuration,
    /// where `status` is what its start returned: a session for the coder's
    /// success code, and the error that the status stands for otherwise.
    pub fn encoder(&self, status: i32) -> (result: Result<Encoder, Error>)
        ensures
            match result {
                Ok(enc) => status == AEC_OK && !enc.ended() && enc.stream().same_parameters(
                    &self.stream(),
                ),
                Err(e) => Error::of_status(status) == Err::<(), Error>(e),
            },
    {
        let conf = self.clone();
        Encoder::new(conf.0, status)
    }

    /// The decoding session that the coder started for this configuration,
    /// where `status` is what its start returned: a session for the coder's
    /// success code, and the error that the status stands for otherwise.
    pub fn decoder(&self, status: i32) -> (result: Result<Decoder, Error>)
        ensures
            match result {
                Ok(dec) => status == AEC_OK && !dec.ended() && dec.stream().same_parameters(
                    &self.stream(),
                ),
                Err(e) => Error::of_status(status) == Err::<(), Error>(e),
            },
    {
        let conf = self.clone();
        Decoder::new(conf.0, status)
    }

    /// What a round of an encoding run hands to the coder: all of `input`
    /// and the span of `output`, with a flush once `input` is empty. Before a
    /// flush the capacity of `output` grows, since nothing tells how much a
    /// flush writes.
    pub fn encode_buffer_request(enc: &Encoder, input: &[u8], output: &mut Vec<u8>) -> (result:
        Result<StepRequest, Error>)
        ensures
            final(output)@ == old(output)@,
            enc.ended() ==> result == Err::<StepRequest, Error>(Error::Stream),
            !enc.ended() ==> result.is_ok() && result.unwrap().avail_in == input@.len()
                && result.unwrap().avail_out <= usize::MAX - old(output)@.len()
                && result.unwrap().flush == flush_value(input@.len() == 0),
    {
        let flush: bool = input.is_empty();
        if flush {
            output.reserve(DEFAULT_BUFFER_SIZE);
        }
        enc.request(input, output, flush)
    }

    /// How a round of an encoding run came out, by what it left of the
    /// input and in the vector.
    pub fn encode_verdict(flushed: bool, rest: usize, len: usize, capacity: usize) -> (verdict:
        Verdict)
        ensures
            verdict == encode_verdict_of(flushed, rest as nat, len as nat, capacity as nat),
    {
        if len == capacity {
            Verdict::Grow
        } else if rest == 0 && flushed {
            Verdict::Done
        } else {
            Verdict::Again
        }
    }

    /// Takes the coder's answer to a round of an encoding run on `input`:
    /// commits to `output` the bytes that the coder wrote, returns the input
    /// that it left over, and says whether the run is over. What follows the
    /// round is [`Configuration::encode_verdict`] of the capacity that
    /// `output` has after the write: only a flush can end the run, and it
    /// does where it left room in `output`. Where a round left none, the
    /// capacity of `output` grows for the next round.
    pub fn encode_buffer<'i>(
        enc: &Encoder,
        input: &'i [u8],
        output: &mut Vec<u8>,
        reply: &StepReply,
    ) -> (result: Result<(&'i [u8], Round), Error>)
        requires
            old(output)@.len() + reply.written@.len() <= usize::MAX,
            reply.avail_in <= input@.len(),
        ensures
            match result {
                Ok((rest, round)) => {
                    &&& step_result(enc.ended(), reply) == Ok::<nat, Error>(reply.written@.len())
                    &&& rest@ == unconsumed(input@, reply)
                    &&& final(output)@ == old(output)@ + reply.written@
                    &&& round == Round::Done ==> input@.len() == 0
                },
                Err(e) => {
                    &&& step_result(enc.ended(), reply) == Err::<nat, Error>(e)
                    &&& final(output)@ == old(output)@
                },
            },
    {
        let flushed: bool = input.is_empty();
        match enc.encode_vec(input, output, reply) {
            Ok((rest, _)) => {
                match Self::encode_verdict(flushed, rest.len(), output.len(), capacity(output)) {
                    Verdict::Grow => {
                        output.reserve(DEFAULT_BUFFER_SIZE);
                        Ok((rest, Round::Again))
                    },
                    Verdict::Again => Ok((rest, Round::Again)),
                    Verdict::Done => Ok((rest, Round::Done)),
                }
            },
            Err(e) => Err(e),
        }
    }

    /// What a round of a decoding run hands to the coder: all of `input` and
    /// the span of `output`, with no flush.
    pub fn decode_buffer_request(dec: &Decoder, input: &[u8], output: &Vec<u8>) -> (result: Result<
        StepRequest,
        Error,
    >)
        ensures
            dec.ended() ==> result == Err::<StepRequest, Error>(Error::Stream),
            !dec.ended() ==> result.is_ok() && result.unwrap().avail_in == input@.len()
                && result.unwrap().avail_out <= usize::MAX - output@.len() && result.unwrap().flush
                == flush_value(false),
    {
        dec.request(input, output, false)
    }

    /// How a round of a decoding run came out, by what it left of the
    /// input and in the vector.
    pub fn decode_verdict(rest: usize, len: usize, capacity: usize) -> (verdict: Verdict)
        ensures
            verdict == decode_verdict_of(rest as nat, len as nat, capacity as nat),
    {
        if rest == 0 {
            Verdict::Done
        } else if len == capacity {
            Verdict::Grow
        } else {
            Verdict::Again
        }
    }

    /// Takes the coder's answer to a round of a decoding run on `input`:
    /// commits to `output` the bytes that the coder wrote, returns the input
    /// that it left over, and says whether the run is over. The run is over
    /// once no input is left over. Where input is left over and the round
    /// left no room in `output`, the capacity of `output` grows for the next
    /// round.
    pub fn decode_buffer<'i>(
        dec: &Decoder,
        input: &'i [u8],
        output: &mut Vec<u8>,
        reply: &StepReply,
    ) -> (result: Result<(&'i [u8], Round), Error>)
        requires
            old(output)@.len() + reply.written@.len() <= usize::MAX,
            reply.avail_in <= input@.len(),
        ensures
            match result {
                Ok((rest, round)) => {
                    &&& step_result(dec.ended(), reply) == Ok::<nat, Error>(reply.written@.len())
                    &&& rest@ == unconsumed(input@, reply)
                    &&& final(output)@ == old(output)@ + reply.written@
                    &&& round == (if reply.avail_in == 0 {
                        Round::Done
                    } else {
                        Round::Again
                    })
                },
                Err(e) => {
                    &&& step_result(dec.ended(), reply) == Err::<nat, Error>(e)
                    &&& final(output)@ == old(output)@
                },
            },
    {
        match dec.decode_vec(input, output, reply) {
            Ok((rest, _)) => {
                match Self::decode_verdict(rest.len(), output.len(), capacity(output)) {
                    Verdict::Grow => {
                        output.reserve(DEFAULT_BUFFER_SIZE);
                        Ok((rest, Round::Again))
                    },
                    Verdict::Again => Ok((rest, Round::Again)),
                    Verdict::Done => Ok((rest, Round::Done)),
                }
            },
            Err(e) => Err(e),
        }
    }

    /// A reader that encodes what `inner` gives, in the session that the
    /// coder started for this configuration: see [`Configuration::encoder`].
    pub fn encode_reader<T>(&self, status: i32, inner: T) -> (result: Result<
        Reader<Encoder, T>,
        Error,
    >)
        ensures
            match result {
                Ok(reader) => {
                    &&& status == AEC_OK
                    &&& !reader.session().ended()
                    &&& reader.session().stream().same_parameters(&self.stream())
                    &&& reader.source() == inner
                },
                Err(e) => Error::of_status(status) == Err::<(), Error>(e),
            },
    {
        match self.encoder(status) {
            Ok(enc) => Ok(Reader::new_unbuffered(enc, inner)),
            Err(e) => Err(e),
        }
    }

    /// A writer that sends to `inner` the encoded form of what is written to
    /// it, in the session that the coder started for this configuration: see
    /// [`Configuration::encoder`].
    pub fn encode_writer<T>(&self, status: i32, inner: T) -> (result: Result<
        Writer<Encoder, T>,
        Error,
    >)
        ensures
            match result {
                Ok(writer) => {
                    &&& status == AEC_OK
                    &&& !writer.session().ended()
                    &&& writer.session().stream().same_parameters(&self.stream())
                    &&& writer.sink() == inner
                    &&& writer.staged() == Seq::<u8>::empty()
                },
                Err(e) => Error::of_status(status) == Err::<(), Error>(e),
            },
    {
        match self.encoder(status) {
            Ok(enc) => Ok(Writer::new(enc, inner)),
            Err(e) => Err(e),
        }
    }

    /// A reader that decodes what `inner` gives, in the session that the
    /// coder started for this configuration: see [`Configuration::decoder`].
    pub fn decode_reader<T>(&self, status: i32, inner: T) -> (result: Result<
        Reader<Decoder, T>,
        Error,
    >)
        ensures
            match result {
                Ok(reader) => {
                    &&& status == AEC_OK
                    &&& !reader.session().ended()
                    &&& reader.session().stream().same_parameters(&self.stream())
                    &&& reader.source() == inner
                },
                Err(e) => Error::of_status(status) == Err::<(), Error>(e),
            },
    {
        match self.decoder(status) {
            Ok(dec) => Ok(Reader::new_unbuffered(dec, inner)),
            Err(e) => Err(e),
        }
    }

    /// A writer that sends to `inner` the decoded form of what is written to
    /// it, in the session that the coder started for this configuration: see
    /// [`Configuration::decoder`].
    pub fn decode_writer<T>(&self, status: i32, inner: T) -> (result: Result<
        Writer<Decoder, T>,
        Error,
    >)
        ensures
            match result {
                Ok(writer) => {
                    &&& status == AEC_OK
                    &&& !writer.session().ended()
                    &&& writer.session().stream().same_parameters(&self.stream())
                    &&& writer.sink() == inner
                    &&& writer.staged() == Seq::<u8>::empty()
                },
                Err(e) => Error::of_status(status) == Err::<(), Error>(e),
            },
    {
        match self.decoder(status) {
            Ok(dec) => Ok(Writer::new(dec, inner)),
            Err(e) => Err(e),
        }
    }
}

} // verus!
