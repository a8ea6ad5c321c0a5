//! Write phase planning: resolves the block size, aligns the byte limit, and
//! sizes each sequential chunk. The driver loop that performs the uncached
//! writes lives outside the engine; it draws every decision from here and
//! generates each chunk's content with [`crate::generator::fill_block`].
use vstd::prelude::*;

verus! {

use crate::align::{
    align_down_u64,
    resolve_block_size,
    spec_align_down,
    spec_align_up,
    ConfigError,
    DIRECT_IO_ALIGNMENT,
};
use vstd::arithmetic::div_mod::lemma_mod_multiples_basic;

/// Bytes in one binary megabyte.
pub const BYTES_PER_MB: u64 = 1048576;

/// The resolved parameters of one write phase: the aligned byte limit the
/// loop runs to (`u64::MAX` aligned down when unbounded), the total used for
/// progress percentages (0 when unbounded), and the resolved block size.
pub struct WritePlan {
    pub limit_bytes: u64,
    pub total_bytes: u64,
    pub block_size: usize,
}

/// Plans a write phase from a megabyte limit (0 meaning unbounded: write
/// until the device refuses) and the configured block size.
pub fn plan_write(limit_mb: u64, block_size: usize) -> (r: Result<WritePlan, ConfigError>)
    requires
        limit_mb as int <= u64::MAX as int / (BYTES_PER_MB as int),
        block_size + DIRECT_IO_ALIGNMENT <= usize::MAX,
    ensures
        r is Err <==> block_size == 0,
        r matches Err(e) ==> e == ConfigError::ZeroBlockSize,
        r matches Ok(p) ==> {
            &&& p.block_size == spec_align_up(block_size, DIRECT_IO_ALIGNMENT as usize)
            &&& p.block_size >= 4096
            &&& p.block_size % 4096 == 0
            &&& p.limit_bytes == if limit_mb == 0 {
                spec_align_down(u64::MAX, DIRECT_IO_ALIGNMENT as u64)
            } else {
                limit_mb * BYTES_PER_MB
            }
            &&& p.limit_bytes % 4096 == 0
            &&& (limit_mb > 0 ==> p.limit_bytes > 0)
            &&& p.total_bytes == if limit_mb == 0 {
                0
            } else {
                p.limit_bytes
            }
        },
{
    let resolved = match resolve_block_size(block_size) {
        Ok(b) => b,
        Err(e) => {
            return Err(e);
        },
    };
    let limit_bytes_raw = if limit_mb == 0 {
        u64::MAX
    } else {
        limit_mb * BYTES_PER_MB
    };
    proof {
        if limit_mb > 0 {
            lemma_mod_multiples_basic(limit_mb * 256, 4096);
            assert(limit_mb * BYTES_PER_MB == (limit_mb * 256) * 4096);
            crate::align::lemma_align_down_exact(limit_bytes_raw, DIRECT_IO_ALIGNMENT as u64);
        }
    }
    let limit_bytes = align_down_u64(limit_bytes_raw, DIRECT_IO_ALIGNMENT as u64);
    if limit_mb > 0 && limit_bytes == 0 {
        // Unreachable in fact: a positive megabyte count is already aligned.
        return Err(ConfigError::LimitTooSmall);
    }
    let total_bytes = if limit_mb == 0 {
        0
    } else {
        limit_bytes
    };
    Ok(WritePlan { limit_bytes, total_bytes, block_size: resolved })
}

/// Length of the chunk to process at `offset`: a full block, or the tail of
/// the limit if that is shorter.
pub open spec fn spec_chunk_len(limit_bytes: u64, block_size: usize, offset: u64) -> int {
    if limit_bytes - offset < block_size {
        limit_bytes - offset
    } else {
        block_size as int
    }
}

/// Computes the next chunk's length for the write loop.
pub fn write_chunk_len(limit_bytes: u64, block_size: usize, offset: u64) -> (r: usize)
    requires
        offset < limit_bytes,
        block_size > 0,
    ensures
        r == spec_chunk_len(limit_bytes, block_size, offset),
        1 <= r <= block_size,
        offset + r <= limit_bytes,
{
    let remaining = limit_bytes - offset;
    if remaining < block_size as u64 {
        remaining as usize
    } else {
        block_size
    }
}

} // verus!
