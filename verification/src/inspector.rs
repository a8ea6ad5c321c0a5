//! The diagnosis engine's front door: a target path plus configuration, and
//! the planning entry points of the three phases. The uncached I/O that the
//! phases drive lives outside the engine.
use vstd::prelude::*;

verus! {

use crate::align::{ConfigError, DIRECT_IO_ALIGNMENT};
use crate::config::AppConfig;
use crate::probe::{plan_quick_probe, probe_anchor_set, strictly_sorted, ProbeSetup};
use crate::verify_phase::VerifyTally;
use crate::write_phase::{plan_write, WritePlan, BYTES_PER_MB};

/// Phase of a diagnosis session, tagged on progress snapshots.
#[derive(Debug, Clone, Copy, PartialEq, Eq, Structural)]
pub enum ProgressPhase {
    Write,
    Verify,
}

/// A diagnosis engine bound to one target path.
pub struct DriveInspector {
    file_path: String,
    block_size: usize,
    quick_probe_enabled: bool,
    quick_probe_steps: usize,
}

impl DriveInspector {
    /// The target path, as the engine holds it.
    pub closed spec fn spec_path(self) -> Seq<char> {
        self.file_path@
    }

    /// The configured block size, before alignment resolution.
    pub closed spec fn spec_block_size(self) -> usize {
        self.block_size
    }

    pub closed spec fn spec_probe_enabled(self) -> bool {
        self.quick_probe_enabled
    }

    pub closed spec fn spec_probe_steps(self) -> usize {
        self.quick_probe_steps
    }

    /// Binds an engine to a target with the default configuration.
    pub fn new(path: &str) -> (r: Self)
        ensures
            r.spec_path() == path@,
            r.spec_block_size() == 4194304,
            r.spec_probe_enabled() == true,
            r.spec_probe_steps() == 100,
    {
        Self::with_config(path, AppConfig::default())
    }

    /// Binds an engine to a target with the given configuration.
    pub fn with_config(path: &str, config: AppConfig) -> (r: Self)
        ensures
            r.spec_path() == path@,
            r.spec_block_size() == config.block_size,
            r.spec_probe_enabled() == config.quick_probe_enabled,
            r.spec_probe_steps() == config.quick_probe_steps,
    {
        Self {
            file_path: path.to_owned(),
            block_size: config.block_size,
            quick_probe_enabled: config.quick_probe_enabled,
            quick_probe_steps: config.quick_probe_steps,
        }
    }

    /// The target path this engine diagnoses.
    pub fn file_path(&self) -> (r: &str)
        ensures
            r@ == self.spec_path(),
    {
        self.file_path.as_str()
    }

    pub fn block_size(&self) -> (r: usize)
        ensures
            r == self.spec_block_size(),
    {
        self.block_size
    }

    pub fn quick_probe_enabled(&self) -> (r: bool)
        ensures
            r == self.spec_probe_enabled(),
    {
        self.quick_probe_enabled
    }

    pub fn quick_probe_steps(&self) -> (r: usize)
        ensures
            r == self.spec_probe_steps(),
    {
        self.quick_probe_steps
    }

    /// Plans a write phase to a megabyte limit (0: unbounded), per
    /// [`plan_write`].
    pub fn plan_write_phase(&self, limit_mb: u64) -> (r: Result<WritePlan, ConfigError>)
        requires
            limit_mb as int <= u64::MAX as int / (BYTES_PER_MB as int),
            self.spec_block_size() + DIRECT_IO_ALIGNMENT <= usize::MAX,
        ensures
            r is Err <==> self.spec_block_size() == 0,
            r matches Err(e) ==> e == ConfigError::ZeroBlockSize,
            r matches Ok(p) ==> {
                &&& p.block_size == crate::align::spec_align_up(
                    self.spec_block_size(),
                    DIRECT_IO_ALIGNMENT as usize,
                )
                &&& p.block_size >= 4096
                &&& p.block_size % 4096 == 0
                &&& p.limit_bytes == if limit_mb == 0 {
                    crate::align::spec_align_down(u64::MAX, DIRECT_IO_ALIGNMENT as u64)
                } else {
                    limit_mb * BYTES_PER_MB
                }
                &&& p.limit_bytes % 4096 == 0
                &&& p.total_bytes == if limit_mb == 0 {
                    0
                } else {
                    p.limit_bytes
                }
            },
    {
        plan_write(limit_mb, self.block_size)
    }

    /// Begins a verify pass over `total_bytes` bytes, per
    /// [`VerifyTally::begin`].
    pub fn begin_verify_phase(&self, total_bytes: u64) -> (r: Result<VerifyTally, ConfigError>)
        requires
            self.spec_block_size() + DIRECT_IO_ALIGNMENT <= usize::MAX,
        ensures
            r is Ok <==> self.spec_block_size() != 0 && total_bytes % 4096 == 0,
            r matches Err(e) ==> e == if self.spec_block_size() == 0 {
                ConfigError::ZeroBlockSize
            } else {
                ConfigError::UnalignedTotal
            },
            r matches Ok(t) ==> t.wf() && t.total_bytes == total_bytes && t.block_size
                == crate::align::spec_align_up(self.spec_block_size(), DIRECT_IO_ALIGNMENT as usize)
                && t.current_offset == 0 && t.mismatch_blocks == 0 && t.read_error_blocks == 0
                && t.valid_bytes == 0 && t.sample_status is None,
    {
        VerifyTally::begin(total_bytes, self.block_size)
    }

    /// Plans a quick probe over a claimed span, per [`plan_quick_probe`].
    pub fn plan_quick_probe_phase(&self, limit_mb: u64, steps: usize) -> (r: Result<
        ProbeSetup,
        ConfigError,
    >)
        requires
            limit_mb as int <= u64::MAX as int / (BYTES_PER_MB as int),
            self.spec_block_size() + DIRECT_IO_ALIGNMENT <= usize::MAX,
            steps < usize::MAX,
        ensures
            r is Err <==> (self.spec_block_size() == 0 || (limit_mb > 0 && (steps < 2 || limit_mb
                * BYTES_PER_MB < crate::align::spec_align_up(
                self.spec_block_size(),
                DIRECT_IO_ALIGNMENT as usize,
            )))),
            r matches Err(e) ==> e == if self.spec_block_size() == 0 {
                ConfigError::ZeroBlockSize
            } else if steps < 2 {
                ConfigError::ProbeStepsTooFew
            } else {
                ConfigError::ProbeLimitTooSmall
            },
            r matches Ok(setup) ==> ((setup matches ProbeSetup::Skip) <==> limit_mb == 0),
            r matches Ok(setup) ==> (setup matches ProbeSetup::Ready(p) ==> {
                &&& limit_mb > 0
                &&& steps >= 2
                &&& p.limit_bytes == limit_mb * BYTES_PER_MB
                &&& p.block_size == crate::align::spec_align_up(
                    self.spec_block_size(),
                    DIRECT_IO_ALIGNMENT as usize,
                )
                &&& p.block_size <= p.limit_bytes
                &&& strictly_sorted(p.offsets@)
                &&& p.offsets@.len() >= 1
                &&& forall|y: u64|
                    p.offsets@.contains(y) <==> probe_anchor_set(
                        p.limit_bytes,
                        p.block_size,
                        steps,
                    ).contains(y)
                &&& forall|i: int|
                    0 <= i < p.offsets@.len() ==> #[trigger] p.offsets@[i] + p.block_size
                        <= p.limit_bytes && p.offsets@[i] % 4096 == 0
            }),
    {
        plan_quick_probe(limit_mb, steps, self.block_size)
    }
}

} // verus!
