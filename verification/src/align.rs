//! Alignment discipline for uncached device access: block sizes round up to
//! the transfer granularity, limits and probe offsets round down.
use vstd::prelude::*;

verus! {

use vstd::arithmetic::div_mod::{lemma_fundamental_div_mod, lemma_mod_multiples_basic};

/// Transfer granularity required for uncached (direct) I/O, in bytes.
pub const DIRECT_IO_ALIGNMENT: usize = 4096;

/// A fatal misconfiguration, surfaced immediately and never retried.
#[derive(Debug, Clone, Copy, PartialEq, Eq, Structural)]
pub enum ConfigError {
    /// The configured block size is zero.
    ZeroBlockSize,
    /// The byte count handed to the verify phase is not aligned.
    UnalignedTotal,
    /// The write limit rounds to zero under the alignment.
    LimitTooSmall,
    /// The probe limit is smaller than one block.
    ProbeLimitTooSmall,
    /// Fewer than two probe anchors were requested.
    ProbeStepsTooFew,
}

pub open spec fn error_message(e: ConfigError) -> Seq<char> {
    match e {
        ConfigError::ZeroBlockSize => "Block size must be greater than zero."@,
        ConfigError::UnalignedTotal => "Total bytes must be aligned for direct I/O."@,
        ConfigError::LimitTooSmall => "Limit too small for direct I/O alignment."@,
        ConfigError::ProbeLimitTooSmall => "Limit too small for quick probe."@,
        ConfigError::ProbeStepsTooFew => "Quick probe steps must be at least 2."@,
    }
}

impl ConfigError {
    /// The diagnostic sentence for this misconfiguration.
    pub fn message(&self) -> (r: &'static str)
        ensures
            r@ == error_message(*self),
    {
        match self {
            ConfigError::ZeroBlockSize => "Block size must be greater than zero.",
            ConfigError::UnalignedTotal => "Total bytes must be aligned for direct I/O.",
            ConfigError::LimitTooSmall => "Limit too small for direct I/O alignment.",
            ConfigError::ProbeLimitTooSmall => "Limit too small for quick probe.",
            ConfigError::ProbeStepsTooFew => "Quick probe steps must be at least 2.",
        }
    }
}

pub open spec fn spec_align_up(value: usize, alignment: usize) -> int {
    if alignment == 0 {
        value as int
    } else {
        (value + alignment - 1) / (alignment as int) * (alignment as int)
    }
}

pub open spec fn spec_align_down(value: u64, alignment: u64) -> int {
    if alignment == 0 {
        value as int
    } else {
        value as int / (alignment as int) * (alignment as int)
    }
}

/// Rounds a byte count up to the next multiple of the alignment.
pub fn align_up(value: usize, alignment: usize) -> (r: usize)
    requires
        value + alignment <= usize::MAX,
    ensures
        r == spec_align_up(value, alignment),
        alignment > 0 ==> r % alignment == 0 && value <= r < value + alignment,
{
    if alignment == 0 {
        return value;
    }
    proof {
        lemma_fundamental_div_mod(value + alignment - 1, alignment as int);
        lemma_mod_multiples_basic(
            (value + alignment - 1) / (alignment as int),
            alignment as int,
        );
        vstd::arithmetic::mul::lemma_mul_is_commutative(
            (value + alignment - 1) / (alignment as int),
            alignment as int,
        );
    }
    (value + alignment - 1) / alignment * alignment
}

/// Rounds a byte count down to the previous multiple of the alignment.
pub fn align_down_u64(value: u64, alignment: u64) -> (r: u64)
    ensures
        r == spec_align_down(value, alignment),
        alignment > 0 ==> r % alignment == 0 && value - alignment < r <= value,
{
    if alignment == 0 {
        return value;
    }
    proof {
        lemma_fundamental_div_mod(value as int, alignment as int);
        lemma_mod_multiples_basic(value as int / (alignment as int), alignment as int);
        vstd::arithmetic::mul::lemma_mul_is_commutative(
            value as int / (alignment as int),
            alignment as int,
        );
    }
    value / alignment * alignment
}

/// A value already on an alignment boundary rounds down to itself.
pub proof fn lemma_align_down_exact(value: u64, alignment: u64)
    requires
        alignment > 0,
        value % alignment == 0,
    ensures
        spec_align_down(value, alignment) == value,
{
    lemma_fundamental_div_mod(value as int, alignment as int);
    vstd::arithmetic::mul::lemma_mul_is_commutative(
        value as int / (alignment as int),
        alignment as int,
    );
}

/// Resolves a configured block size to the transfer granularity: rejects
/// zero, rounds anything else up to the next multiple of the alignment.
pub fn resolve_block_size(block_size: usize) -> (r: Result<usize, ConfigError>)
    requires
        block_size + DIRECT_IO_ALIGNMENT <= usize::MAX,
    ensures
        block_size == 0 <==> r is Err,
        r matches Err(e) ==> e == ConfigError::ZeroBlockSize,
        r matches Ok(b) ==> {
            &&& b == spec_align_up(block_size, DIRECT_IO_ALIGNMENT as usize)
            &&& b % 4096 == 0
            &&& block_size <= b < block_size + 4096
            &&& b >= 4096
        },
{
    if block_size == 0 {
        return Err(ConfigError::ZeroBlockSize);
    }
    Ok(align_up(block_size, DIRECT_IO_ALIGNMENT))
}

} // verus!
