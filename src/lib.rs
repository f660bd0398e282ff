//! A validated request/response boundary around the EBCC lossy compressor for
//! three-dimensional grids of 32-bit floats.
//!
//! The library decides everything that can be decided without the native
//! codec: it models and validates compression policies, checks input grids,
//! builds the native configuration record and the defensive copies handed to
//! the codec, and turns what the codec hands back into an owned result or a
//! structured error. Floating-point values are carried as their IEEE-754
//! binary32 bit patterns (`f32::to_bits`), so every rule that reads them is
//! stated and proved over plain integers.

pub mod codec;
pub mod config;
pub mod decimal;
pub mod error;
pub mod float;
pub mod grid;

pub use codec::{
    codec_config, ebcc_decode_finish, ebcc_decode_request, ebcc_encode_finish,
    ebcc_encode_request, validate_decode_input, validate_finite, validate_shape, CodecConfig,
    EncodeRequest, ELEMENT_SIZE, MIN_SIDE,
};
pub use config::{
    EBCCConfig, EBCCResidualType, RESIDUAL_MAX_ERROR, RESIDUAL_NONE, RESIDUAL_RELATIVE_ERROR,
};
pub use decimal::decimal_string;
pub use error::{EBCCError, EBCCResult, ErrorKind};
pub use float::{f32_is_finite, f32_is_positive, F32_ONE, F32_TEN, F32_ZERO};
pub use grid::{checked_count, copy_of, Grid};
