//! The encode and decode boundary around the native codec.
//!
//! Each operation is split at the native call. A `*_request` function
//! validates what the caller handed in and prepares exactly what the codec
//! receives: the configuration record and a defensive copy of the input. The
//! caller runs the codec, copies its output buffer into owned memory (or
//! reports a null pointer as `None`), releases the buffer, and hands the copy
//! to the matching `*_finish` function, which decides the outcome.

use vstd::prelude::*;
use vstd::string::*;

use crate::config::EBCCConfig;
use crate::decimal::{decimal, decimal_string};
use crate::error::{EBCCError, EBCCResult, ErrorKind};
use crate::float::{f32_is_finite, is_finite_spec, F32_ONE};
use crate::grid::{checked_count, copy_of, element_count, Grid};

verus! {

/// The smallest height and width that the native codec accepts.
pub const MIN_SIDE: usize = 32;

/// Bytes in one binary32 element.
pub const ELEMENT_SIZE: usize = 4;

/// The native codec's configuration record. Floating-point fields are
/// binary32 bit patterns.
#[derive(Debug, Clone, Copy, PartialEq, Eq, Structural)]
pub struct CodecConfig {
    pub frames: usize,
    pub height: usize,
    pub width: usize,
    pub base_cr: u32,
    pub residual_compression_type: u32,
    /// Kept for the record's layout; the codec does not read it.
    pub residual_cr: u32,
    pub error: u32,
}

/// What the native encoder receives: its configuration record and a copy of
/// the grid's elements that it may overwrite.
#[derive(Debug)]
pub struct EncodeRequest {
    pub config: CodecConfig,
    pub data: Vec<u32>,
}

impl CodecConfig {
    /// This record describes a grid of dimensions `dim` under `config`.
    pub open spec fn describes(self, dim: (usize, usize, usize), config: EBCCConfig) -> bool {
        &&& self.frames == dim.0
        &&& self.height == dim.1
        &&& self.width == dim.2
        &&& self.base_cr == config.base_cr
        &&& self.residual_compression_type == config.residual_compression_type.residual_code()
        &&& self.residual_cr == F32_ONE
        &&& self.error == config.residual_compression_type.error_bits()
    }
}

pub open spec fn zero_dimension_message() -> Seq<char> {
    "All dimensions must be > 0"@
}

pub open spec fn overflow_message() -> Seq<char> {
    "Dimension overflow"@
}

pub open spec fn too_large_message() -> Seq<char> {
    "Data too large"@
}

pub open spec fn min_size_message(height: nat, width: nat) -> Seq<char> {
    "EBCC requires last two dimensions to be at least 32x32, got "@ + decimal(height) + "x"@
        + decimal(width)
}

pub open spec fn non_finite_message(index: nat) -> Seq<char> {
    "Non-finite value at index "@ + decimal(index)
}

pub open spec fn empty_payload_message() -> Seq<char> {
    "Compressed data is empty"@
}

pub open spec fn encode_failure_message() -> Seq<char> {
    "the native encoder returned null or zero size"@
}

pub open spec fn decode_failure_message() -> Seq<char> {
    "the native decoder returned null or zero size"@
}

pub open spec fn shape_mismatch_message(dim: (usize, usize, usize), count: nat) -> Seq<char> {
    "Decompressed data should be of shape ["@ + decimal(dim.0 as nat) + ", "@ + decimal(
        dim.1 as nat,
    ) + ", "@ + decimal(dim.2 as nat) + "] but decompressed to "@ + decimal(count)
        + " elements"@
}

/// What is wrong with dimensions `dim`, if anything: a zero dimension, an
/// element count that overflows `usize` or whose bytes exceed `isize::MAX`,
/// or a height or width below the codec's minimum, checked in this order.
pub open spec fn shape_error(dim: (usize, usize, usize)) -> Option<Seq<char>> {
    if dim.0 == 0 || dim.1 == 0 || dim.2 == 0 {
        Some(zero_dimension_message())
    } else if element_count(dim) > usize::MAX {
        Some(overflow_message())
    } else if element_count(dim) > isize::MAX / 4 {
        Some(too_large_message())
    } else if dim.1 < 32 || dim.2 < 32 {
        Some(min_size_message(dim.1 as nat, dim.2 as nat))
    } else {
        None
    }
}

/// `i` is the index of the first element of `s` that is not finite.
pub open spec fn is_first_non_finite(s: Seq<u32>, i: int) -> bool {
    &&& 0 <= i < s.len()
    &&& !is_finite_spec(s[i])
    &&& forall|j: int| 0 <= j < i ==> is_finite_spec(#[trigger] s[j])
}

/// The index of the first element of `s` that is not finite, if any.
pub open spec fn first_non_finite(s: Seq<u32>) -> Option<int> {
    if exists|i: int| is_first_non_finite(s, i) {
        Some(choose|i: int| is_first_non_finite(s, i))
    } else {
        None
    }
}

/// The error with which encoding a grid of dimensions `dim` and elements `s`
/// under `config` is refused before the native call, if any: the shape is
/// checked first, then the policy, then the elements.
pub open spec fn encode_error(dim: (usize, usize, usize), s: Seq<u32>, config: EBCCConfig) -> Option<
    (ErrorKind, Seq<char>),
> {
    if shape_error(dim) is Some {
        Some((ErrorKind::InvalidInput, shape_error(dim)->Some_0))
    } else if config.config_error() is Some {
        Some((ErrorKind::InvalidConfig, config.config_error()->Some_0))
    } else if first_non_finite(s) is Some {
        Some((ErrorKind::InvalidInput, non_finite_message(first_non_finite(s)->Some_0 as nat)))
    } else {
        None
    }
}

/// The elements that the native decoder handed back, if its pointer was not
/// null.
pub open spec fn payload(decoded: Option<Vec<u32>>) -> Option<Seq<u32>> {
    match decoded {
        Some(v) => Some(v@),
        None => None,
    }
}

/// The error with which a decode into a grid of dimensions `dim` ends, given
/// what the native decoder handed back, if any.
pub open spec fn decode_error(decoded: Option<Seq<u32>>, dim: (usize, usize, usize)) -> Option<
    (ErrorKind, Seq<char>),
> {
    match decoded {
        None => Some((ErrorKind::DecompressionError, decode_failure_message())),
        Some(v) => if v.len() == 0 {
            Some((ErrorKind::DecompressionError, decode_failure_message()))
        } else if v.len() != element_count(dim) {
            Some((ErrorKind::InvalidInput, shape_mismatch_message(dim, v.len())))
        } else {
            None
        },
    }
}

/// Checks the dimensions of a grid before encoding.
pub fn validate_shape(dim: (usize, usize, usize)) -> (r: EBCCResult<()>)
    ensures
        r is Ok <==> shape_error(dim) is None,
        r matches Err(e) ==> e@ == (ErrorKind::InvalidInput, shape_error(dim)->Some_0),
{
    let (f, h, w) = dim;
    if f == 0 || h == 0 || w == 0 {
        return Err(EBCCError::InvalidInput(String::from_str("All dimensions must be > 0")));
    }
    let n = match checked_count(dim) {
        Some(n) => n,
        None => {
            return Err(EBCCError::InvalidInput(String::from_str("Dimension overflow")));
        },
    };
    if n > (isize::MAX as usize) / ELEMENT_SIZE {
        return Err(EBCCError::InvalidInput(String::from_str("Data too large")));
    }
    if h < MIN_SIDE || w < MIN_SIDE {
        let mut m = String::from_str(
            "EBCC requires last two dimensions to be at least 32x32, got ",
        );
        m.append(decimal_string(h).as_str());
        m.append("x");
        m.append(decimal_string(w).as_str());
        return Err(EBCCError::InvalidInput(m));
    }
    Ok(())
}

/// Checks that every element is finite, naming the first that is not.
pub fn validate_finite(values: &[u32]) -> (r: EBCCResult<()>)
    ensures
        r is Ok <==> first_non_finite(values@) is None,
        r matches Err(e) ==> e@ == (
            ErrorKind::InvalidInput,
            non_finite_message(first_non_finite(values@)->Some_0 as nat),
        ),
{
    let mut i: usize = 0;
    while i < values.len()
        invariant
            i <= values@.len(),
            forall|j: int| 0 <= j < i ==> is_finite_spec(#[trigger] values@[j]),
        decreases values@.len() - i,
    {
        if !f32_is_finite(values[i]) {
            proof {
                lemma_first_non_finite_unique(values@, i as int);
            }
            let mut m = String::from_str("Non-finite value at index ");
            m.append(decimal_string(i).as_str());
            return Err(EBCCError::InvalidInput(m));
        }
        i = i + 1;
    }
    proof {
        lemma_all_finite(values@);
    }
    Ok(())
}

proof fn lemma_first_non_finite_unique(s: Seq<u32>, i: int)
    requires
        is_first_non_finite(s, i),
    ensures
        first_non_finite(s) == Some(i),
{
    let k = choose|k: int| is_first_non_finite(s, k);
    assert(is_first_non_finite(s, k));
    if k < i {
        assert(is_finite_spec(s[k]));
    } else if k > i {
        assert(is_finite_spec(s[i]));
    }
}

proof fn lemma_all_finite(s: Seq<u32>)
    requires
        forall|j: int| 0 <= j < s.len() ==> is_finite_spec(#[trigger] s[j]),
    ensures
        first_non_finite(s) is None,
{
    if exists|i: int| is_first_non_finite(s, i) {
        let k = choose|i: int| is_first_non_finite(s, i);
        assert(is_finite_spec(s[k]));
    }
}

/// The native configuration record for a grid of dimensions `dim` under
/// `config`: the residual mode becomes its code and a single error scalar,
/// and the unused residual ratio is `1.0`.
pub fn codec_config(dim: (usize, usize, usize), config: &EBCCConfig) -> (r: CodecConfig)
    ensures
        r.describes(dim, *config),
{
    CodecConfig {
        frames: dim.0,
        height: dim.1,
        width: dim.2,
        base_cr: config.base_cr,
        residual_compression_type: config.residual_compression_type.as_residual(),
        residual_cr: F32_ONE,
        error: config.residual_compression_type.as_error(),
    }
}

/// Validates an encode request and prepares what the native encoder
/// receives. Nothing is prepared for a request that is refused.
pub fn ebcc_encode_request(data: &Grid, config: &EBCCConfig) -> (r: EBCCResult<EncodeRequest>)
    ensures
        r is Ok <==> encode_error(data.dims(), data.elems(), *config) is None,
        r matches Err(e) ==> encode_error(data.dims(), data.elems(), *config) == Some(e@),
        r matches Ok(req) ==> req.config.describes(data.dims(), *config) && req.data@
            == data.elems(),
{
    let dim = data.dim();
    validate_shape(dim)?;
    config.validate()?;
    validate_finite(data.values())?;
    Ok(EncodeRequest { config: codec_config(dim, config), data: copy_of(data.values()) })
}

/// Decides the outcome of the native encoder from the copy of its output
/// buffer (`None` for a null pointer). An empty output is a failure.
pub fn ebcc_encode_finish(compressed: Option<Vec<u8>>) -> (r: EBCCResult<Vec<u8>>)
    ensures
        r is Ok <==> (compressed matches Some(b) && b@.len() > 0),
        r matches Ok(out) ==> compressed matches Some(b) && out@ == b@,
        r matches Err(e) ==> e@ == (ErrorKind::CompressionError, encode_failure_message()),
{
    match compressed {
        Some(b) => {
            if b.len() == 0 {
                Err(
                    EBCCError::CompressionError(
                        String::from_str("the native encoder returned null or zero size"),
                    ),
                )
            } else {
                Ok(b)
            }
        },
        None => Err(
            EBCCError::CompressionError(
                String::from_str("the native encoder returned null or zero size"),
            ),
        ),
    }
}

/// Checks a compressed payload before decoding: it must not be empty.
pub fn validate_decode_input(compressed_data: &[u8]) -> (r: EBCCResult<()>)
    ensures
        r is Ok <==> compressed_data@.len() > 0,
        r matches Err(e) ==> e@ == (ErrorKind::InvalidInput, empty_payload_message()),
{
    if compressed_data.len() == 0 {
        return Err(EBCCError::InvalidInput(String::from_str("Compressed data is empty")));
    }
    Ok(())
}

/// Validates a decode request and prepares the copy of the payload that the
/// native decoder receives.
pub fn ebcc_decode_request(compressed_data: &[u8]) -> (r: EBCCResult<Vec<u8>>)
    ensures
        r is Ok <==> compressed_data@.len() > 0,
        r matches Ok(copy) ==> copy@ == compressed_data@,
        r matches Err(e) ==> e@ == (ErrorKind::InvalidInput, empty_payload_message()),
{
    validate_decode_input(compressed_data)?;
    Ok(copy_of(compressed_data))
}

/// Decides the outcome of the native decoder from the copy of its output
/// buffer (`None` for a null pointer), and on success assigns the decoded
/// elements to `decompressed_data`. The grid keeps its dimensions, and a
/// failed decode leaves its elements untouched.
pub fn ebcc_decode_finish(decoded: Option<Vec<u32>>, decompressed_data: &mut Grid) -> (r:
    EBCCResult<()>)
    requires
        old(decompressed_data).wf(),
    ensures
        final(decompressed_data).dims() == old(decompressed_data).dims(),
        final(decompressed_data).wf(),
        r is Ok <==> decode_error(payload(decoded), old(decompressed_data).dims()) is None,
        r matches Err(e) ==> decode_error(payload(decoded), old(decompressed_data).dims()) == Some(
            e@,
        ),
        r is Ok ==> Some(final(decompressed_data).elems()) == payload(decoded),
        r is Err ==> final(decompressed_data).elems() == old(decompressed_data).elems(),
{
    match decoded {
        None => Err(
            EBCCError::DecompressionError(
                String::from_str("the native decoder returned null or zero size"),
            ),
        ),
        Some(v) => {
            if v.len() == 0 {
                return Err(
                    EBCCError::DecompressionError(
                        String::from_str("the native decoder returned null or zero size"),
                    ),
                );
            }
            if v.len() != decompressed_data.len() {
                let (f, h, w) = decompressed_data.dim();
                let mut m = String::from_str("Decompressed data should be of shape [");
                m.append(decimal_string(f).as_str());
                m.append(", ");
                m.append(decimal_string(h).as_str());
                m.append(", ");
                m.append(decimal_string(w).as_str());
                m.append("] but decompressed to ");
                m.append(decimal_string(v.len()).as_str());
                m.append(" elements");
                return Err(EBCCError::InvalidInput(m));
            }
            decompressed_data.assign(v);
            Ok(())
        },
    }
}

/// Whenever some element of `s` is not finite, a first such element exists.
proof fn lemma_first_non_finite_exists(s: Seq<u32>, i: int)
    requires
        0 <= i < s.len(),
        !is_finite_spec(s[i]),
    ensures
        first_non_finite(s) is Some,
    decreases i,
{
    if forall|j: int| 0 <= j < i ==> is_finite_spec(#[trigger] s[j]) {
        assert(is_first_non_finite(s, i));
    } else {
        let j = choose|j: int| 0 <= j < i && !is_finite_spec(#[trigger] s[j]);
        lemma_first_non_finite_exists(s, j);
    }
}

/// A grid with a zero dimension, with a height or width below the codec's
/// minimum, or, under a valid policy, with a non-finite element is refused
/// with `InvalidInput` before the native encoder runs.
pub proof fn lemma_malformed_grid_rejected(data: Grid, config: EBCCConfig)
    requires
        data.dims().0 == 0 || data.dims().1 == 0 || data.dims().2 == 0 || data.dims().1 < MIN_SIDE
            || data.dims().2 < MIN_SIDE || (config.is_valid() && exists|i: int|
            0 <= i < data.elems().len() && !is_finite_spec(#[trigger] data.elems()[i])),
    ensures
        encode_error(data.dims(), data.elems(), config) matches Some(e) && e.0
            == ErrorKind::InvalidInput,
{
    if shape_error(data.dims()) is None && config.is_valid() {
        let i = choose|i: int|
            0 <= i < data.elems().len() && !is_finite_spec(#[trigger] data.elems()[i]);
        lemma_first_non_finite_exists(data.elems(), i);
    }
}

/// A policy that fails validation never reaches the native encoder: every
/// encode request under it is refused, and with `InvalidConfig` whenever the
/// grid's shape is acceptable.
pub proof fn lemma_invalid_config_rejected(data: Grid, config: EBCCConfig)
    requires
        !config.is_valid(),
    ensures
        encode_error(data.dims(), data.elems(), config) is Some,
        shape_error(data.dims()) is None ==> encode_error(data.dims(), data.elems(), config)
            == Some((ErrorKind::InvalidConfig, config.config_error()->Some_0)),
{
}

/// Once a grid passes validation, a decoder output with as many elements as
/// the grid is accepted by `ebcc_decode_finish` into any output grid of the
/// same dimensions.
pub proof fn lemma_round_trip_shape(
    data: Grid,
    config: EBCCConfig,
    decoded: Seq<u32>,
    output: Grid,
)
    requires
        data.wf(),
        encode_error(data.dims(), data.elems(), config) is None,
        decoded.len() == data.elems().len(),
        output.dims() == data.dims(),
    ensures
        decode_error(Some(decoded), output.dims()) is None,
{
    let d = data.dims();
    assert(element_count(d) >= 1) by (nonlinear_arith)
        requires
            d.0 >= 1,
            d.1 >= 1,
            d.2 >= 1,
            element_count(d) == d.0 as int * d.1 as int * d.2 as int,
    ;
}

} // verus!
