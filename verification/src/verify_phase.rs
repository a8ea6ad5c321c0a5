//! Verify phase tallies: block-by-block accounting of matches, mismatches
//! and read errors, with monotone escalation of the failure classification.
//! The driver loop that performs the uncached reads lives outside the
//! engine; for every block it either hands the bytes read to
//! [`VerifyTally::record_block`] or reports the failure through
//! [`VerifyTally::record_read_error`], and closes with
//! [`VerifyTally::finish`].
use vstd::prelude::*;

verus! {

use crate::align::{resolve_block_size, spec_align_up, ConfigError, DIRECT_IO_ALIGNMENT};
use crate::generator::{block_matches, fill_block, pattern_byte, verify_block, zero_block};
use crate::report::{
    conclusion_text,
    generate_report,
    report_status,
    spec_score_centi,
    DiagnosisReport,
};
use crate::status::{
    all_zero,
    analyze_failure_sample,
    escalate,
    severity_opt,
    spec_classify,
    spec_escalate,
    DriveHealthStatus,
};
use crate::write_phase::spec_chunk_len;

/// The pattern expected at `offset` is all zero over the first `len` bytes.
pub open spec fn pattern_all_zero(offset: u64, len: int) -> bool {
    forall|i: int| 0 <= i < len ==> #[trigger] pattern_byte(offset, i as nat) == 0
}

/// Classification of a block whose bytes differ from the pattern expected at
/// `offset`: all-zero bytes against a not-all-zero expectation are the
/// signature of reads past the real capacity; anything else is corruption.
pub open spec fn mismatch_class(offset: u64, data: Seq<u8>) -> DriveHealthStatus {
    if all_zero(data) && !pattern_all_zero(offset, data.len() as int) {
        DriveHealthStatus::FakeCapacity
    } else {
        DriveHealthStatus::PhysicalCorruption
    }
}

/// Against a regenerated expected block, the sample analyzer classifies a
/// mismatched block exactly as [`mismatch_class`] says.
proof fn lemma_mismatch_classification(offset: u64, expected: Seq<u8>, data: Seq<u8>)
    requires
        expected.len() == data.len(),
        data.len() > 0,
        block_matches(offset, expected),
        !block_matches(offset, data),
    ensures
        spec_classify(expected, data) == Some(mismatch_class(offset, data)),
{
    let i = choose|i: int| 0 <= i < data.len() && data[i] != pattern_byte(offset, i as nat);
    assert(expected[i] == pattern_byte(offset, i as nat));
    assert(expected != data);
    assert(all_zero(expected) <==> pattern_all_zero(offset, data.len() as int)) by {
        if all_zero(expected) {
            assert forall|j: int| 0 <= j < data.len() implies #[trigger] pattern_byte(
                offset,
                j as nat,
            ) == 0 by {
                assert(expected[j] == pattern_byte(offset, j as nat));
            }
        }
        if pattern_all_zero(offset, data.len() as int) {
            assert forall|j: int| 0 <= j < expected.len() implies expected[j] == 0 by {
                assert(pattern_byte(offset, j as nat) == 0);
            }
        }
    }
}

/// The accumulated state of one verify pass over `total_bytes` bytes.
#[derive(Debug, Clone)]
pub struct VerifyTally {
    pub total_bytes: u64,
    pub block_size: usize,
    pub current_offset: u64,
    pub mismatch_blocks: u64,
    pub read_error_blocks: u64,
    pub valid_bytes: u64,
    pub sample_status: Option<DriveHealthStatus>,
}

impl VerifyTally {
    /// Internal consistency of a tally that can keep scanning: the offset is
    /// within bounds, at most one error was tallied per scanned byte, and a
    /// failure sample exists only after a mismatch.
    pub open spec fn wf(self) -> bool {
        &&& self.block_size >= 4096
        &&& self.total_bytes % 4096 == 0
        &&& self.current_offset <= self.total_bytes
        &&& self.valid_bytes <= self.current_offset
        &&& self.mismatch_blocks + self.read_error_blocks <= self.current_offset
        &&& (self.sample_status is Some ==> self.mismatch_blocks > 0)
    }

    /// Length of the block to read at the current offset.
    pub open spec fn spec_read_len(self) -> int {
        spec_chunk_len(self.total_bytes, self.block_size, self.current_offset)
    }

    /// Begins a verify pass: rejects a zero block size, then a byte count
    /// that is not a multiple of the device alignment; otherwise starts with
    /// every tally at zero.
    pub fn begin(total_bytes: u64, block_size: usize) -> (r: Result<VerifyTally, ConfigError>)
        requires
            block_size + DIRECT_IO_ALIGNMENT <= usize::MAX,
        ensures
            r is Ok <==> block_size != 0 && total_bytes % 4096 == 0,
            r matches Err(e) ==> e == if block_size == 0 {
                ConfigError::ZeroBlockSize
            } else {
                ConfigError::UnalignedTotal
            },
            r matches Ok(t) ==> {
                &&& t.wf()
                &&& t.total_bytes == total_bytes
                &&& t.block_size == spec_align_up(block_size, DIRECT_IO_ALIGNMENT as usize)
                &&& t.current_offset == 0
                &&& t.mismatch_blocks == 0
                &&& t.read_error_blocks == 0
                &&& t.valid_bytes == 0
                &&& t.sample_status is None
            },
    {
        let resolved = match resolve_block_size(block_size) {
            Ok(b) => b,
            Err(e) => {
                return Err(e);
            },
        };
        if total_bytes % (DIRECT_IO_ALIGNMENT as u64) != 0 {
            return Err(ConfigError::UnalignedTotal);
        }
        Ok(
            VerifyTally {
                total_bytes,
                block_size: resolved,
                current_offset: 0,
                mismatch_blocks: 0,
                read_error_blocks: 0,
                valid_bytes: 0,
                sample_status: None,
            },
        )
    }

    /// True while blocks remain to scan.
    pub fn has_remaining(&self) -> (r: bool)
        ensures
            r == (self.current_offset < self.total_bytes),
    {
        self.current_offset < self.total_bytes
    }

    /// Length of the block to read at the current offset.
    pub fn next_read_len(&self) -> (r: usize)
        requires
            self.wf(),
            self.current_offset < self.total_bytes,
        ensures
            r == self.spec_read_len(),
            1 <= r <= self.block_size,
            self.current_offset + r <= self.total_bytes,
    {
        crate::write_phase::write_chunk_len(self.total_bytes, self.block_size, self.current_offset)
    }

    /// Tallies one unreadable block. When the driver managed to seek past it
    /// (`seek_ok`), the scan advances one block and continues; otherwise the
    /// scan cannot continue, the offset stays, and only the counter moves.
    pub fn record_read_error(&mut self, seek_ok: bool)
        requires
            old(self).wf(),
            old(self).current_offset < old(self).total_bytes,
        ensures
            final(self).read_error_blocks == old(self).read_error_blocks + 1,
            final(self).mismatch_blocks == old(self).mismatch_blocks,
            final(self).valid_bytes == old(self).valid_bytes,
            final(self).sample_status == old(self).sample_status,
            final(self).total_bytes == old(self).total_bytes,
            final(self).block_size == old(self).block_size,
            seek_ok ==> final(self).wf() && final(self).current_offset == old(self).current_offset
                + old(self).spec_read_len(),
            !seek_ok ==> final(self).current_offset == old(self).current_offset && final(self).mismatch_blocks
                + final(self).read_error_blocks <= u64::MAX,
    {
        let len = self.next_read_len();
        self.read_error_blocks = self.read_error_blocks + 1;
        if seek_ok {
            self.current_offset = self.current_offset + len as u64;
        }
    }

    /// Tallies one block that was read back: a byte-for-byte match of the
    /// expected pattern counts its bytes valid; a mismatch is counted,
    /// classified against the regenerated pattern, and escalates the running
    /// sample classification monotonically. Either way the scan advances by
    /// the block's length.
    #[verifier::rlimit(50)]
    pub fn record_block(&mut self, buffer: &Vec<u8>)
        requires
            old(self).wf(),
            old(self).current_offset < old(self).total_bytes,
            buffer@.len() == old(self).spec_read_len(),
        ensures
            final(self).wf(),
            final(self).current_offset == old(self).current_offset + buffer@.len(),
            final(self).total_bytes == old(self).total_bytes,
            final(self).block_size == old(self).block_size,
            final(self).read_error_blocks == old(self).read_error_blocks,
            block_matches(old(self).current_offset, buffer@) ==> {
                &&& final(self).valid_bytes == old(self).valid_bytes + buffer@.len()
                &&& final(self).mismatch_blocks == old(self).mismatch_blocks
                &&& final(self).sample_status == old(self).sample_status
            },
            !block_matches(old(self).current_offset, buffer@) ==> {
                &&& final(self).valid_bytes == old(self).valid_bytes
                &&& final(self).mismatch_blocks == old(self).mismatch_blocks + 1
                &&& final(self).sample_status == spec_escalate(
                    old(self).sample_status,
                    mismatch_class(old(self).current_offset, buffer@),
                )
            },
            severity_opt(final(self).sample_status) >= severity_opt(old(self).sample_status),
    {
        let len = buffer.len();
        match verify_block(self.current_offset, buffer) {
            Ok(()) => {
                self.valid_bytes = self.valid_bytes + len as u64;
            },
            Err(_) => {
                self.mismatch_blocks = self.mismatch_blocks + 1;
                let mut expected = zero_block(len);
                fill_block(self.current_offset, &mut expected);
                proof {
                    lemma_mismatch_classification(self.current_offset, expected@, buffer@);
                }
                if let Some(observed) = analyze_failure_sample(&expected, buffer) {
                    self.sample_status = escalate(self.sample_status, observed);
                }
            },
        }
        self.current_offset = self.current_offset + len as u64;
    }

    /// Closes the pass: the report's capacity is the requested byte count,
    /// its tested bytes are how far the scan actually got.
    pub fn finish(&self) -> (r: DiagnosisReport)
        requires
            self.mismatch_blocks + self.read_error_blocks <= u64::MAX,
        ensures
            r.total_capacity == self.total_bytes,
            r.tested_bytes == self.current_offset,
            r.valid_bytes == self.valid_bytes,
            r.error_count == self.mismatch_blocks + self.read_error_blocks,
            r.status == report_status(
                self.mismatch_blocks,
                self.read_error_blocks,
                self.sample_status,
            ),
            r.health_score_centi == spec_score_centi(self.valid_bytes, self.total_bytes),
            r.conclusion@ == conclusion_text(
                r.status,
                r.error_count,
                self.current_offset,
                self.total_bytes,
            ),
    {
        generate_report(
            self.total_bytes,
            self.current_offset,
            self.valid_bytes,
            self.mismatch_blocks,
            self.read_error_blocks,
            self.sample_status,
        )
    }
}

} // verus!
