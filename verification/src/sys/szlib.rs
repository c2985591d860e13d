//! The call interface of the coder's one-call compatibility pair.

use vstd::prelude::*;

verus! {

/// (option)
pub const SZ_ALLOW_K13_OPTION_MASK: i32 = 1;

/// (option)
pub const SZ_CHIP_OPTION_MASK: i32 = 2;

/// (option)
pub const SZ_EC_OPTION_MASK: i32 = 4;

/// (option)
pub const SZ_LSB_OPTION_MASK: i32 = 8;

/// (option)
pub const SZ_MSB_OPTION_MASK: i32 = 16;

/// (option)
pub const SZ_NN_OPTION_MASK: i32 = 32;

/// (option)
pub const SZ_RAW_OPTION_MASK: i32 = 128;

/// (status) No error occurred.
pub const SZ_OK: i32 = 0;

/// (status) The output buffer is full.
pub const SZ_OUTBUFF_FULL: i32 = 2;

/// (status) No encoder is available.
pub const SZ_NO_ENCODER_ERROR: i32 = -1;

/// (status) Bad parameters.
pub const SZ_PARAM_ERROR: i32 = -1;

/// (status) Out of memory.
pub const SZ_MEM_ERROR: i32 = -4;

/// (limit) Largest number of pixels per block.
pub const SZ_MAX_PIXELS_PER_BLOCK: i32 = 32;

/// (limit) Largest number of blocks per scanline.
pub const SZ_MAX_BLOCKS_PER_SCANLINE: i32 = 128;

/// (limit) Largest number of pixels per scanline.
pub const SZ_MAX_PIXELS_PER_SCANLINE: i32 = 4096;

/// The parameters that the compatibility pair takes.
#[allow(non_camel_case_types)]
#[derive(Clone, Copy, Debug, PartialEq, Eq, Structural)]
pub struct SZ_com_t {
    pub options_mask: i32,
    pub bits_per_pixel: i32,
    pub pixels_per_block: i32,
    pub pixels_per_scanline: i32,
}

} // verus!
