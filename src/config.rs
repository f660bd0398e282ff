//! Compression policies: a base ratio and a residual mode.

use vstd::prelude::*;
use vstd::string::*;

use crate::error::{EBCCError, EBCCResult, ErrorKind};
use crate::float::{f32_is_positive, is_positive_spec, F32_TEN, F32_ZERO};

verus! {

/// Residual-mode code of the native configuration record: no residual layer.
pub const RESIDUAL_NONE: u32 = 0;

/// Residual-mode code of the native configuration record: absolute bound.
pub const RESIDUAL_MAX_ERROR: u32 = 1;

/// Residual-mode code of the native configuration record: relative bound.
pub const RESIDUAL_RELATIVE_ERROR: u32 = 2;

/// Residual compression types supported by EBCC. Error bounds are binary32
/// bit patterns.
#[derive(Debug, Clone, Copy, PartialEq, Eq, Structural)]
pub enum EBCCResidualType {
    /// No residual compression: the base JPEG2000 layer only.
    Jpeg2000Only,
    /// Residual compression with an absolute maximum error bound.
    AbsoluteError(u32),
    /// Residual compression with a relative error bound.
    RelativeError(u32),
}

impl EBCCResidualType {
    /// The native residual-mode code of this mode.
    pub open spec fn residual_code(self) -> u32 {
        match self {
            EBCCResidualType::Jpeg2000Only => RESIDUAL_NONE,
            EBCCResidualType::AbsoluteError(_) => RESIDUAL_MAX_ERROR,
            EBCCResidualType::RelativeError(_) => RESIDUAL_RELATIVE_ERROR,
        }
    }

    /// The error scalar of this mode: its bound, or `0.0` without a residual
    /// layer.
    pub open spec fn error_bits(self) -> u32 {
        match self {
            EBCCResidualType::Jpeg2000Only => F32_ZERO,
            EBCCResidualType::AbsoluteError(e) => e,
            EBCCResidualType::RelativeError(e) => e,
        }
    }

    pub(crate) fn as_residual(self) -> (r: u32)
        ensures
            r == self.residual_code(),
    {
        match self {
            EBCCResidualType::Jpeg2000Only => RESIDUAL_NONE,
            EBCCResidualType::AbsoluteError(_) => RESIDUAL_MAX_ERROR,
            EBCCResidualType::RelativeError(_) => RESIDUAL_RELATIVE_ERROR,
        }
    }

    pub(crate) fn as_error(self) -> (r: u32)
        ensures
            r == self.error_bits(),
    {
        match self {
            EBCCResidualType::Jpeg2000Only => F32_ZERO,
            EBCCResidualType::AbsoluteError(e) | EBCCResidualType::RelativeError(e) => e,
        }
    }
}

/// Configuration for EBCC compression. `base_cr` is a binary32 bit pattern.
#[derive(Debug, Clone, Copy, PartialEq, Eq, Structural)]
pub struct EBCCConfig {
    /// Base compression ratio for the JPEG2000 layer.
    pub base_cr: u32,
    /// Type of residual compression to apply.
    pub residual_compression_type: EBCCResidualType,
}

/// Description of a policy whose base ratio is not positive.
pub open spec fn ratio_message() -> Seq<char> {
    "Base compression ratio must be positive"@
}

/// Description of a policy whose error bound is not positive.
pub open spec fn bound_message() -> Seq<char> {
    "Error bound must be positive"@
}

impl EBCCConfig {
    /// The error that validation reports for this policy, if any: the base
    /// ratio must compare `> 0.0`, then so must the error bound of a bounded
    /// mode. A NaN compares greater than nothing, so it is refused.
    pub open spec fn config_error(self) -> Option<Seq<char>> {
        if !is_positive_spec(self.base_cr) {
            Some(ratio_message())
        } else if !is_positive_spec(self.residual_compression_type.error_bits())
            && self.residual_compression_type != EBCCResidualType::Jpeg2000Only {
            Some(bound_message())
        } else {
            None
        }
    }

    /// A policy is valid when its base ratio and, in a bounded mode, its error
    /// bound are strictly positive (`> 0.0`).
    pub open spec fn is_valid(self) -> bool {
        self.config_error() is None
    }

    /// The default policy: base ratio `10.0`, no residual layer.
    pub fn new() -> (r: EBCCConfig)
        ensures
            r.base_cr == F32_TEN,
            r.residual_compression_type == EBCCResidualType::Jpeg2000Only,
    {
        EBCCConfig { base_cr: F32_TEN, residual_compression_type: EBCCResidualType::Jpeg2000Only }
    }

    /// A policy for JPEG2000-only compression at ratio `base_cr`.
    pub fn jpeg2000_only(base_cr: u32) -> (r: EBCCConfig)
        ensures
            r.base_cr == base_cr,
            r.residual_compression_type == EBCCResidualType::Jpeg2000Only,
    {
        EBCCConfig { base_cr, residual_compression_type: EBCCResidualType::Jpeg2000Only }
    }

    /// A policy for compression with an absolute maximum error bound.
    pub fn max_absolute_error_bounded(base_cr: u32, error: u32) -> (r: EBCCConfig)
        ensures
            r.base_cr == base_cr,
            r.residual_compression_type == EBCCResidualType::AbsoluteError(error),
    {
        EBCCConfig { base_cr, residual_compression_type: EBCCResidualType::AbsoluteError(error) }
    }

    /// A policy for compression with a relative error bound.
    pub fn relative_error_bounded(base_cr: u32, error: u32) -> (r: EBCCConfig)
        ensures
            r.base_cr == base_cr,
            r.residual_compression_type == EBCCResidualType::RelativeError(error),
    {
        EBCCConfig { base_cr, residual_compression_type: EBCCResidualType::RelativeError(error) }
    }

    /// Checks the policy's invariants.
    pub fn validate(&self) -> (r: EBCCResult<()>)
        ensures
            r is Ok <==> is_positive_spec(self.base_cr) && match self.residual_compression_type {
                EBCCResidualType::Jpeg2000Only => true,
                EBCCResidualType::AbsoluteError(e) => is_positive_spec(e),
                EBCCResidualType::RelativeError(e) => is_positive_spec(e),
            },
            r is Ok <==> self.is_valid(),
            r matches Err(e) ==> e@ == (ErrorKind::InvalidConfig, self.config_error()->Some_0),
    {
        if !f32_is_positive(self.base_cr) {
            return Err(
                EBCCError::InvalidConfig(
                    String::from_str("Base compression ratio must be positive"),
                ),
            );
        }
        match self.residual_compression_type {
            EBCCResidualType::AbsoluteError(error) | EBCCResidualType::RelativeError(error) => {
                if !f32_is_positive(error) {
                    return Err(
                        EBCCError::InvalidConfig(String::from_str("Error bound must be positive")),
                    );
                }
            },
            EBCCResidualType::Jpeg2000Only => {},
        }
        Ok(())
    }
}

impl Default for EBCCConfig {
    fn default() -> (r: EBCCConfig)
        ensures
            r.base_cr == F32_TEN,
            r.residual_compression_type == EBCCResidualType::Jpeg2000Only,
    {
        EBCCConfig::new()
    }
}

} // verus!
