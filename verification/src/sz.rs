//! The one-call compatibility mode.
//!
//! Here the coder compresses or decompresses a whole buffer in one call,
//! with no session: the destination has to be large enough for all of the
//! output.

use crate::buffer::Buffer;
use crate::error::ErrorKind;
use crate::sys::szlib::{
    SZ_com_t, SZ_ALLOW_K13_OPTION_MASK, SZ_CHIP_OPTION_MASK, SZ_EC_OPTION_MASK,
    SZ_LSB_OPTION_MASK, SZ_MEM_ERROR, SZ_MSB_OPTION_MASK, SZ_NN_OPTION_MASK, SZ_OK,
    SZ_OUTBUFF_FULL, SZ_PARAM_ERROR, SZ_RAW_OPTION_MASK,
};
use vstd::prelude::*;
use vstd::std_specs::convert::FromSpecImpl;
use vstd::std_specs::ops::BitOrSpecImpl;

verus! {

/// A set of the seven options of the compatibility mode. The view is the
/// set's bit pattern.
#[derive(Clone, Copy, Debug, PartialEq, Eq, Hash)]
pub struct Options {
    bits: u32,
}

impl View for Options {
    type V = u32;

    closed spec fn view(&self) -> u32 {
        self.bits
    }
}

impl Options {
    /// The bits of all seven options.
    pub const ALL: u32 = 191;

    #[verifier::type_invariant]
    spec fn known_bits_only(self) -> bool {
        self.bits & !Options::ALL == 0
    }

    /// The set with the bit pattern `bits`.
    pub closed spec fn of(bits: u32) -> Options {
        Options { bits }
    }

    /// The empty set.
    pub fn empty() -> (options: Options)
        ensures
            options@ == 0,
    {
        assert(0u32 & !191u32 == 0) by (bit_vector);
        Options { bits: 0 }
    }

    /// The set of all seven options.
    pub fn all() -> (options: Options)
        ensures
            options@ == Options::ALL,
    {
        assert(191u32 & !191u32 == 0) by (bit_vector);
        Options { bits: Options::ALL }
    }

    /// The set that holds [`SZ_ALLOW_K13_OPTION_MASK`] alone.
    pub fn allow_k13() -> (options: Options)
        ensures
            options@ == SZ_ALLOW_K13_OPTION_MASK as u32,
    {
        assert(1u32 & !191u32 == 0) by (bit_vector);
        Options { bits: 1 }
    }

    /// The set that holds [`SZ_CHIP_OPTION_MASK`] alone.
    pub fn chip() -> (options: Options)
        ensures
            options@ == SZ_CHIP_OPTION_MASK as u32,
    {
        assert(2u32 & !191u32 == 0) by (bit_vector);
        Options { bits: 2 }
    }

    /// The set that holds [`SZ_EC_OPTION_MASK`] alone.
    pub fn ec() -> (options: Options)
        ensures
            options@ == SZ_EC_OPTION_MASK as u32,
    {
        assert(4u32 & !191u32 == 0) by (bit_vector);
        Options { bits: 4 }
    }

    /// The set that holds [`SZ_LSB_OPTION_MASK`] alone.
    pub fn lsb() -> (options: Options)
        ensures
            options@ == SZ_LSB_OPTION_MASK as u32,
    {
        assert(8u32 & !191u32 == 0) by (bit_vector);
        Options { bits: 8 }
    }

    /// The set that holds [`SZ_MSB_OPTION_MASK`] alone.
    pub fn msb() -> (options: Options)
        ensures
            options@ == SZ_MSB_OPTION_MASK as u32,
    {
        assert(16u32 & !191u32 == 0) by (bit_vector);
        Options { bits: 16 }
    }

    /// The set that holds [`SZ_NN_OPTION_MASK`] alone.
    pub fn nn() -> (options: Options)
        ensures
            options@ == SZ_NN_OPTION_MASK as u32,
    {
        assert(32u32 & !191u32 == 0) by (bit_vector);
        Options { bits: 32 }
    }

    /// The set that holds [`SZ_RAW_OPTION_MASK`] alone.
    pub fn raw() -> (options: Options)
        ensures
            options@ == SZ_RAW_OPTION_MASK as u32,
    {
        assert(128u32 & !191u32 == 0) by (bit_vector);
        Options { bits: 128 }
    }

    /// The bit pattern of this set. No bit outside the seven options is set.
    pub fn bits(&self) -> (bits: u32)
        ensures
            bits == self@,
            bits & !Options::ALL == 0,
    {
        proof {
            use_type_invariant(self);
        }
        self.bits
    }

    /// The set with the bit pattern `bits`, if `bits` holds no bit outside
    /// the seven options.
    pub fn from_bits(bits: u32) -> (options: Option<Options>)
        ensures
            options.is_some() <==> bits & !Options::ALL == 0,
            options.is_some() ==> options.unwrap()@ == bits,
    {
        if bits & !Options::ALL == 0 {
            Some(Options { bits })
        } else {
            None
        }
    }

    /// The set of those options whose bit is set in `bits`: every other bit
    /// is dropped.
    pub fn from_bits_truncate(bits: u32) -> (options: Options)
        ensures
            options@ == bits & Options::ALL,
    {
        assert((bits & 191u32) & !191u32 == 0) by (bit_vector);
        Options { bits: bits & Options::ALL }
    }

    /// Whether every option of `other` is in this set.
    pub fn contains(&self, other: Options) -> (all_in: bool)
        ensures
            all_in <==> self@ & other@ == other@,
    {
        self.bits & other.bits == other.bits
    }

    /// The options that are in this set or in `other`.
    pub fn union(self, other: Options) -> (options: Options)
        ensures
            options@ == self@ | other@,
            options == Options::of(self@ | other@),
    {
        proof {
            use_type_invariant(self);
            use_type_invariant(other);
        }
        let a: u32 = self.bits;
        let b: u32 = other.bits;
        assert(a & !191u32 == 0 && b & !191u32 == 0 ==> (a | b) & !191u32 == 0) by (bit_vector);
        Options { bits: a | b }
    }
}

impl BitOrSpecImpl for Options {
    open spec fn obeys_bitor_spec() -> bool {
        true
    }

    open spec fn bitor_req(self, rhs: Options) -> bool {
        true
    }

    open spec fn bitor_spec(self, rhs: Options) -> Options {
        Options::of(self@ | rhs@)
    }
}

impl core::ops::BitOr for Options {
    type Output = Options;

    fn bitor(self, rhs: Options) -> (options: Options)
        ensures
            options@ == self@ | rhs@,
    {
        self.union(rhs)
    }
}

/// What can go wrong in the one call.
#[derive(Clone, Debug, PartialEq, Eq, Hash, Structural)]
pub enum Error {
    /// The destination cannot take all of the output.
    OutputBufferFull,
    /// The parameters are not acceptable to the coder.
    Parameter,
    /// The coder ran out of memory.
    Memory,
}

impl Error {
    /// What a status code of the one call means. A code that stands for
    /// none of the three errors counts as bad parameters.
    pub open spec fn of_status(v: i32) -> Result<(), Error> {
        if v == SZ_OK {
            Ok(())
        } else if v == SZ_OUTBUFF_FULL {
            Err(Error::OutputBufferFull)
        } else if v == SZ_MEM_ERROR {
            Err(Error::Memory)
        } else {
            Err(Error::Parameter)
        }
    }

    /// The class of this error.
    pub open spec fn kind(&self) -> ErrorKind {
        match self {
            Error::OutputBufferFull => ErrorKind::InvalidInput,
            Error::Parameter => ErrorKind::InvalidInput,
            Error::Memory => ErrorKind::Other,
        }
    }

    /// The text of this error.
    pub open spec fn text(&self) -> Seq<char> {
        match self {
            Error::OutputBufferFull => "output buffer is full"@,
            Error::Parameter => "bad parameters"@,
            Error::Memory => "out of memory"@,
        }
    }

    /// Maps a status code of the one call to `Ok` or to the error it stands
    /// for.
    pub fn from_int(v: i32) -> (result: Result<(), Error>)
        ensures
            result == Error::of_status(v),
    {
        if v == SZ_OK {
            Ok(())
        } else if v == SZ_OUTBUFF_FULL {
            Err(Error::OutputBufferFull)
        } else if v == SZ_PARAM_ERROR {
            Err(Error::Parameter)
        } else if v == SZ_MEM_ERROR {
            Err(Error::Memory)
        } else {
            Err(Error::Parameter)
        }
    }

    /// The text of this error.
    pub fn message(&self) -> (text: String)
        ensures
            text@ == self.text(),
    {
        match self {
            Error::OutputBufferFull => "output buffer is full".to_string(),
            Error::Parameter => "bad parameters".to_string(),
            Error::Memory => "out of memory".to_string(),
        }
    }
}

impl FromSpecImpl<Error> for ErrorKind {
    open spec fn obeys_from_spec() -> bool {
        true
    }

    open spec fn from_spec(err: Error) -> ErrorKind {
        err.kind()
    }
}

impl From<Error> for ErrorKind {
    fn from(err: Error) -> (kind: ErrorKind) {
        match err {
            Error::OutputBufferFull => ErrorKind::InvalidInput,
            Error::Parameter => ErrorKind::InvalidInput,
            Error::Memory => ErrorKind::Other,
        }
    }
}

/// What the one call is handed besides the parameters.
#[derive(Clone, Copy, Debug, PartialEq, Eq, Structural)]
pub struct Request {
    /// Number of bytes that the destination can take.
    pub dest_len: usize,
    /// Number of source bytes.
    pub source_len: usize,
}

/// What the one call left behind.
#[derive(Clone, Debug, PartialEq, Eq)]
pub struct Reply {
    /// The status that the call returned.
    pub status: i32,
    /// The bytes that the coder wrote at the start of the destination.
    pub written: Vec<u8>,
}

/// What the one call returns, given what the coder answered: the error, or
/// the number of bytes to commit.
pub open spec fn call_result(reply: &Reply) -> Result<nat, Error> {
    match Error::of_status(reply.status) {
        Ok(()) => Ok(reply.written@.len()),
        Err(e) => Err(e),
    }
}

fn settle<B: Buffer + ?Sized>(dest: &mut B, reply: &Reply) -> (result: Result<usize, Error>)
    requires
        reply.written@.len() <= old(dest).limit(),
    ensures
        match result {
            Ok(produced) => {
                &&& call_result(reply) == Ok::<nat, Error>(produced as nat)
                &&& final(dest).holds_write(old(dest), reply.written@)
            },
            Err(e) => {
                &&& call_result(reply) == Err::<nat, Error>(e)
                &&& final(dest).view() == old(dest).view()
            },
        },
{
    match Error::from_int(reply.status) {
        Ok(()) => Ok(dest.write_data(reply.written.as_slice())),
        Err(e) => Err(e),
    }
}

/// The parameters of the one call.
#[derive(Clone, Debug)]
pub struct Parameters(SZ_com_t);

impl Parameters {
    /// The record of these parameters.
    pub closed spec fn record(&self) -> SZ_com_t {
        self.0
    }

    /// Parameters with the options `options`, `bits_per_pixel` bits per
    /// pixel, blocks of `pixels_per_block` pixels and scanlines of
    /// `pixels_per_scanline` pixels. Each number is cut to its lower 32 bits.
    pub fn new(
        options: Options,
        bits_per_pixel: usize,
        pixels_per_block: usize,
        pixels_per_scanline: usize,
    ) -> (parameters: Self)
        ensures
            parameters.record().options_mask == options@ as i32,
            parameters.record().bits_per_pixel == bits_per_pixel as i32,
            parameters.record().pixels_per_block == pixels_per_block as i32,
            parameters.record().pixels_per_scanline == pixels_per_scanline as i32,
    {
        Parameters(
            SZ_com_t {
                options_mask: #[verifier::truncate]
                (options.bits() as i32),
                bits_per_pixel: #[verifier::truncate]
                (bits_per_pixel as i32),
                pixels_per_block: #[verifier::truncate]
                (pixels_per_block as i32),
                pixels_per_scanline: #[verifier::truncate]
                (pixels_per_scanline as i32),
            },
        )
    }

    /// The record of these parameters, as the coder is to see it.
    pub fn as_record(&self) -> (record: &SZ_com_t)
        ensures
            *record == self.record(),
    {
        &self.0
    }

    /// What the one call on `source` and `dest` is handed: the span of
    /// `dest` and the length of `source`.
    pub fn request<B: Buffer + ?Sized>(&self, source: &[u8], dest: &B) -> (request: Request)
        ensures
            dest.is_span(request.dest_len),
            request.dest_len <= dest.limit(),
            request.source_len == source@.len(),
    {
        Request { dest_len: dest.write_info(), source_len: source.len() }
    }

    /// Takes the coder's answer to a compression of `source`: commits to
    /// `dest` the bytes that the coder wrote and returns their number. A
    /// status other than success gives the error and leaves `dest` as it
    /// was.
    pub fn compress<B: Buffer + ?Sized>(&self, source: &[u8], dest: &mut B, reply: &Reply) -> (result:
        Result<usize, Error>)
        requires
            reply.written@.len() <= old(dest).limit(),
        ensures
            match result {
                Ok(produced) => {
                    &&& call_result(reply) == Ok::<nat, Error>(produced as nat)
                    &&& final(dest).holds_write(old(dest), reply.written@)
                },
                Err(e) => {
                    &&& call_result(reply) == Err::<nat, Error>(e)
                    &&& final(dest).view() == old(dest).view()
                },
            },
    {
        settle(dest, reply)
    }

    /// Takes the coder's answer to a decompression of `source`: commits to
    /// `dest` the bytes that the coder wrote and returns their number. A
    /// status other than success gives the error and leaves `dest` as it
    /// was.
    pub fn decompress<B: Buffer + ?Sized>(
        &self,
        source: &[u8],
        dest: &mut B,
        reply: &Reply,
    ) -> (result: Result<usize, Error>)
        requires
            reply.written@.len() <= old(dest).limit(),
        ensures
            match result {
                Ok(produced) => {
                    &&& call_result(reply) == Ok::<nat, Error>(produced as nat)
                    &&& final(dest).holds_write(old(dest), reply.written@)
                },
                Err(e) => {
                    &&& call_result(reply) == Err::<nat, Error>(e)
                    &&& final(dest).view() == old(dest).view()
                },
            },
    {
        settle(dest, reply)
    }

    /// The options. A bit of the record that stands for no option is
    /// dropped.
    pub fn options(&self) -> (options: Options)
        ensures
            options@ == (self.record().options_mask as u32) & Options::ALL,
    {
        Options::from_bits_truncate(
            #[verifier::truncate]
            (self.0.options_mask as u32),
        )
    }

    /// The number of bits per pixel.
    pub fn bits_per_pixel(&self) -> (n: usize)
        ensures
            n == self.record().bits_per_pixel as usize,
    {
        #[verifier::truncate]
        (self.0.bits_per_pixel as usize)
    }

    /// The number of pixels per block.
    pub fn pixels_per_block(&self) -> (n: usize)
        ensures
            n == self.record().pixels_per_block as usize,
    {
        #[verifier::truncate]
        (self.0.pixels_per_block as usize)
    }

    /// The number of pixels per scanline.
    pub fn pixels_per_scanline(&self) -> (n: usize)
        ensures
            n == self.record().pixels_per_scanline as usize,
    {
        #[verifier::truncate]
        (self.0.pixels_per_scanline as usize)
    }
}

/// Parameters give back the options that they were made with.
pub proof fn lemma_options_kept(bits: u32)
    requires
        bits & !Options::ALL == 0,
    ensures
        ((bits as i32) as u32) & Options::ALL == bits,
{
    assert(bits & !191u32 == 0 ==> ((bits as i32) as u32) & 191u32 == bits) by (bit_vector);
}

} // verus!
