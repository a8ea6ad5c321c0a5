//! Engine configuration.
use vstd::prelude::*;

verus! {

/// Configuration for a diagnosis engine: the transfer block size in bytes
/// (rounded up to the device alignment when a phase runs), whether the quick
/// probe runs before a full scan, and how many probe steps it takes.
#[derive(Clone, Copy, Debug)]
pub struct AppConfig {
    pub block_size: usize,
    pub quick_probe_enabled: bool,
    pub quick_probe_steps: usize,
}

impl Default for AppConfig {
    /// The default configuration: 4 MiB blocks, quick probe enabled with 100
    /// steps.
    fn default() -> (r: Self)
        ensures
            r.block_size == 4194304,
            r.quick_probe_enabled == true,
            r.quick_probe_steps == 100,
    {
        Self { block_size: 4 * 1024 * 1024, quick_probe_enabled: true, quick_probe_steps: 100 }
    }
}

} // verus!
