//! Quick probe: a sparse-sampling variant of write-plus-verify. A handful of
//! evenly spaced anchor offsets across the claimed span are written and read
//! back; a mismatched anchor whose bytes instead match a *different* anchor's
//! expected pattern is the concrete signature of fake-capacity wraparound
//! (one logical address physically mapped onto another). The heuristic only
//! catches a wrap period that lands on a tested anchor boundary: a device
//! whose wrap period misses every anchor can still pass the probe, which is a
//! known sampling limitation of the design, not one to compensate with other
//! anchor spacing.
use vstd::prelude::*;

verus! {

use crate::align::{
    align_down_u64,
    resolve_block_size,
    spec_align_up,
    ConfigError,
    DIRECT_IO_ALIGNMENT,
};
use crate::generator::{block_matches, verify_block};
use crate::report::{
    conclusion_text,
    generate_report,
    report_status,
    spec_score_centi,
    DiagnosisReport,
};
use crate::status::{severity_opt, DriveHealthStatus};
use crate::write_phase::BYTES_PER_MB;

/// The anchor offset for one probe step: the span linearly interpolated
/// (saturating at `u64::MAX`), aligned down to the device granularity, and
/// clamped so the anchor plus one block stays inside the span.
pub open spec fn spec_probe_offset(
    total_bytes: u64,
    block_size: usize,
    steps: usize,
    step: int,
) -> int {
    let num = if total_bytes * step > u64::MAX {
        u64::MAX as int
    } else {
        total_bytes * step
    };
    let aligned = num / (steps as int) / 4096 * 4096;
    let last = if total_bytes >= block_size {
        total_bytes - block_size
    } else {
        0
    };
    if aligned < last {
        aligned
    } else {
        last
    }
}

/// `steps + 1` evenly spaced anchor offsets across the span, in step order
/// (not yet deduplicated).
fn compute_probe_offsets(total_bytes: u64, block_size: usize, steps: usize) -> (r: Vec<u64>)
    requires
        1 <= steps < usize::MAX,
    ensures
        (total_bytes == 0 || block_size == 0) ==> r@.len() == 0,
        (total_bytes > 0 && block_size > 0) ==> {
            &&& r@.len() == steps + 1
            &&& forall|i: int|
                0 <= i <= steps ==> r@[i] == spec_probe_offset(total_bytes, block_size, steps, i)
        },
{
    let mut offsets: Vec<u64> = Vec::new();
    if total_bytes == 0 || block_size == 0 {
        return offsets;
    }
    let last_offset = total_bytes.saturating_sub(block_size as u64);
    let mut step: usize = 0;
    while step <= steps
        invariant
            step <= steps + 1,
            steps < usize::MAX,
            steps >= 1,
            total_bytes > 0,
            block_size > 0,
            last_offset == if total_bytes >= block_size {
                total_bytes - block_size
            } else {
                0
            },
            offsets@.len() == step,
            forall|i: int|
                0 <= i < step ==> offsets@[i] == spec_probe_offset(
                    total_bytes,
                    block_size,
                    steps,
                    i,
                ),
        decreases steps + 1 - step,
    {
        let numerator = match total_bytes.checked_mul(step as u64) {
            Some(v) => v,
            None => u64::MAX,
        };
        let raw = numerator / (steps as u64);
        let aligned = align_down_u64(raw, DIRECT_IO_ALIGNMENT as u64);
        let value = if aligned < last_offset {
            aligned
        } else {
            last_offset
        };
        offsets.push(value);
        step = step + 1;
    }
    offsets
}

/// Strictly ascending: no duplicates, sorted.
pub open spec fn strictly_sorted(s: Seq<u64>) -> bool {
    forall|i: int, j: int| 0 <= i < j < s.len() ==> s[i] < s[j]
}

/// Inserts `x` into an ascending, duplicate-free vector, keeping it so.
fn insert_sorted_unique(v: &mut Vec<u64>, x: u64)
    requires
        strictly_sorted(old(v)@),
    ensures
        strictly_sorted(final(v)@),
        old(v)@.len() <= final(v)@.len() <= old(v)@.len() + 1,
        forall|y: u64| final(v)@.contains(y) <==> (old(v)@.contains(y) || y == x),
{
    let ghost orig = v@;
    let mut k: usize = 0;
    while k < v.len() && *v.get(k).unwrap() < x
        invariant
            k <= v@.len(),
            v@ == orig,
            forall|j: int| 0 <= j < k ==> v@[j] < x,
        decreases v@.len() - k,
    {
        k = k + 1;
    }
    if k < v.len() && *v.get(k).unwrap() == x {
        proof {
            assert(v@.contains(x));
        }
        return ;
    }
    v.insert(k, x);
    proof {
        orig.insert_ensures(k as int, x);
        assert forall|i: int, j: int| 0 <= i < j < v@.len() implies v@[i] < v@[j] by {
            if j < k {
            } else if i < k && j == k {
            } else if i == k {
                assert(v@[j] == orig[j - 1]);
                assert(orig[j - 1] >= orig[k as int]);
            } else if i > k {
                assert(v@[i] == orig[i - 1] && v@[j] == orig[j - 1]);
            } else {
                // i < k < j
                assert(v@[j] == orig[j - 1]);
            }
        }
        assert forall|y: u64| v@.contains(y) <==> (orig.contains(y) || y == x) by {
            if v@.contains(y) {
                let i = choose|i: int| 0 <= i < v@.len() && v@[i] == y;
                if i < k {
                    assert(orig[i] == y);
                } else if i > k {
                    assert(orig[i - 1] == y);
                }
            }
            if orig.contains(y) {
                let i = choose|i: int| 0 <= i < orig.len() && orig[i] == y;
                if i < k {
                    assert(v@[i] == y);
                } else {
                    assert(v@[i + 1] == y);
                }
            }
            if y == x {
                assert(v@[k as int] == y);
            }
        }
    }
}

/// Sorts and deduplicates the anchor offsets.
fn sort_dedup(v: &Vec<u64>) -> (r: Vec<u64>)
    ensures
        strictly_sorted(r@),
        forall|y: u64| r@.contains(y) <==> v@.contains(y),
        v@.len() > 0 ==> r@.len() > 0,
        r@.len() <= v@.len(),
{
    let mut out: Vec<u64> = Vec::new();
    let mut i: usize = 0;
    while i < v.len()
        invariant
            i <= v@.len(),
            strictly_sorted(out@),
            out@.len() <= i,
            forall|y: u64| out@.contains(y) <==> v@.take(i as int).contains(y),
        decreases v@.len() - i,
    {
        let ghost before = out@;
        insert_sorted_unique(&mut out, *v.get(i).unwrap());
        proof {
            assert(v@.take(i + 1).drop_last() =~= v@.take(i as int));
            assert(v@.take(i + 1).last() == v@[i as int]);
            assert forall|y: u64| out@.contains(y) <==> v@.take(i + 1).contains(y) by {
                if out@.contains(y) {
                    if before.contains(y) {
                        let j = choose|j: int| 0 <= j < i && v@.take(i as int)[j] == y;
                        assert(v@.take(i + 1)[j] == y);
                    } else {
                        assert(v@.take(i + 1)[i as int] == y);
                    }
                }
                if v@.take(i + 1).contains(y) {
                    let j = choose|j: int| 0 <= j <= i && #[trigger] v@.take(i + 1)[j] == y;
                    if j < i {
                        assert(v@.take(i as int)[j] == y);
                    }
                }
            }
        }
        i = i + 1;
    }
    proof {
        assert(v@.take(v@.len() as int) =~= v@);
        if v@.len() > 0 {
            assert(v@.contains(v@[0]));
            assert(out@.contains(v@[0]));
        }
    }
    out
}

/// The deduplicated set of anchor offsets the probe will test.
pub open spec fn probe_anchor_set(total_bytes: u64, block_size: usize, steps: usize) -> Set<u64> {
    Set::new(
        |o: u64|
            exists|i: int|
                0 <= i <= steps && o == spec_probe_offset(total_bytes, block_size, steps, i),
    )
}

/// The resolved parameters of one quick probe: the aligned span and block
/// size, and the ascending, duplicate-free anchor offsets.
pub struct ProbePlan {
    pub limit_bytes: u64,
    pub block_size: usize,
    pub offsets: Vec<u64>,
}

/// Outcome of probe planning: a probe with no span to sample is skipped
/// rather than refused.
pub enum ProbeSetup {
    Skip,
    Ready(ProbePlan),
}

/// Plans a quick probe over a claimed span of `limit_mb` megabytes, sampled
/// at `steps + 1` anchors. A zero limit skips the probe; fewer than two
/// steps, or a span smaller than one block, is a configuration error.
pub fn plan_quick_probe(limit_mb: u64, steps: usize, block_size: usize) -> (r: Result<
    ProbeSetup,
    ConfigError,
>)
    requires
        limit_mb as int <= u64::MAX as int / (BYTES_PER_MB as int),
        block_size + DIRECT_IO_ALIGNMENT <= usize::MAX,
        steps < usize::MAX,
    ensures
        r is Err <==> (block_size == 0 || (limit_mb > 0 && (steps < 2 || limit_mb * BYTES_PER_MB
            < spec_align_up(block_size, DIRECT_IO_ALIGNMENT as usize)))),
        r matches Err(e) ==> e == if block_size == 0 {
            ConfigError::ZeroBlockSize
        } else if steps < 2 {
            ConfigError::ProbeStepsTooFew
        } else {
            ConfigError::ProbeLimitTooSmall
        },
        r matches Ok(setup) ==> ((setup matches ProbeSetup::Skip) <==> limit_mb == 0),
        r matches Ok(setup) ==> (setup matches ProbeSetup::Ready(p) ==> {
            &&& limit_mb > 0
            &&& steps >= 2
            &&& p.limit_bytes == limit_mb * BYTES_PER_MB
            &&& p.block_size == spec_align_up(block_size, DIRECT_IO_ALIGNMENT as usize)
            &&& p.block_size <= p.limit_bytes
            &&& strictly_sorted(p.offsets@)
            &&& p.offsets@.len() >= 1
            &&& forall|y: u64|
                p.offsets@.contains(y) <==> probe_anchor_set(
                    p.limit_bytes,
                    p.block_size,
                    steps,
                ).contains(y)
            &&& forall|i: int|
                0 <= i < p.offsets@.len() ==> #[trigger] p.offsets@[i] + p.block_size
                    <= p.limit_bytes && p.offsets@[i] % 4096 == 0
        }),
{
    let resolved = match resolve_block_size(block_size) {
        Ok(b) => b,
        Err(e) => {
            return Err(e);
        },
    };
    if limit_mb == 0 {
        return Ok(ProbeSetup::Skip);
    }
    if steps < 2 {
        return Err(ConfigError::ProbeStepsTooFew);
    }
    let limit_bytes_raw = limit_mb * BYTES_PER_MB;
    proof {
        vstd::arithmetic::div_mod::lemma_mod_multiples_basic(limit_mb * 256, 4096);
        assert(limit_mb * BYTES_PER_MB == (limit_mb * 256) * 4096);
        crate::align::lemma_align_down_exact(limit_bytes_raw, DIRECT_IO_ALIGNMENT as u64);
    }
    let limit_bytes = align_down_u64(limit_bytes_raw, DIRECT_IO_ALIGNMENT as u64);
    if limit_bytes < resolved as u64 {
        return Err(ConfigError::ProbeLimitTooSmall);
    }
    let raw_offsets = compute_probe_offsets(limit_bytes, resolved, steps);
    let offsets = sort_dedup(&raw_offsets);
    proof {
        assert forall|y: u64|
            raw_offsets@.contains(y) <==> probe_anchor_set(
                limit_bytes,
                resolved,
                steps,
            ).contains(y) by {
            if raw_offsets@.contains(y) {
                let i = choose|i: int| 0 <= i < raw_offsets@.len() && raw_offsets@[i] == y;
                assert(y == spec_probe_offset(limit_bytes, resolved, steps, i));
            }
            if probe_anchor_set(limit_bytes, resolved, steps).contains(y) {
                let i = choose|i: int|
                    0 <= i <= steps && y == spec_probe_offset(limit_bytes, resolved, steps, i);
                assert(raw_offsets@[i] == y);
            }
        }
        assert forall|i: int| 0 <= i < offsets@.len() implies #[trigger] offsets@[i]
            + resolved <= limit_bytes && offsets@[i] % 4096 == 0 by {
            assert(offsets@.contains(offsets@[i]));
            let s = choose|s: int|
                0 <= s <= steps && offsets@[i] == spec_probe_offset(
                    limit_bytes,
                    resolved,
                    steps,
                    s,
                );
            lemma_probe_offset_bounds(limit_bytes, resolved, steps, s);
        }
    }
    Ok(ProbeSetup::Ready(ProbePlan { limit_bytes, block_size: resolved, offsets }))
}

/// Every anchor is aligned and leaves room for one block inside the span.
proof fn lemma_probe_offset_bounds(total_bytes: u64, block_size: usize, steps: usize, step: int)
    requires
        steps >= 1,
        block_size >= 4096,
        block_size % 4096 == 0,
        block_size <= total_bytes,
        total_bytes % 4096 == 0,
    ensures
        spec_probe_offset(total_bytes, block_size, steps, step) + block_size <= total_bytes,
        spec_probe_offset(total_bytes, block_size, steps, step) % 4096 == 0,
{
    let num = if total_bytes * step > u64::MAX {
        u64::MAX as int
    } else {
        total_bytes * step
    };
    let aligned = num / (steps as int) / 4096 * 4096;
    let last = total_bytes - block_size;
    vstd::arithmetic::div_mod::lemma_mod_multiples_basic(num / (steps as int) / 4096, 4096);
    vstd::arithmetic::mul::lemma_mul_is_commutative(num / (steps as int) / 4096, 4096);
    if aligned >= last {
        // The clamped value `last` is itself aligned.
        vstd::arithmetic::div_mod::lemma_mod_equivalence(
            total_bytes as int,
            block_size as int,
            4096,
        );
        assert((total_bytes - block_size) % 4096 == 0) by {
            vstd::arithmetic::div_mod::lemma_sub_mod_noop(
                total_bytes as int,
                block_size as int,
                4096,
            );
        }
    }
}

/// The accumulated state of one quick probe pass over `n_anchors` anchors.
pub struct ProbeTally {
    pub n_anchors: u64,
    pub block_size: usize,
    pub anchors_done: u64,
    pub mismatch_blocks: u64,
    pub read_error_blocks: u64,
    pub valid_bytes: u64,
    pub sample_status: Option<DriveHealthStatus>,
}

impl ProbeTally {
    /// Internal consistency: at most one error per tested anchor, at most one
    /// block of valid bytes per tested anchor, and the whole sampled span
    /// fits in a byte count.
    pub open spec fn wf(self) -> bool {
        &&& self.anchors_done <= self.n_anchors
        &&& self.n_anchors * self.block_size <= u64::MAX
        &&& self.valid_bytes <= self.anchors_done * self.block_size
        &&& self.mismatch_blocks + self.read_error_blocks <= self.anchors_done
        &&& (self.sample_status is Some ==> self.mismatch_blocks > 0)
    }

    /// Begins a probe pass over `n_anchors` anchors of `block_size` bytes.
    pub fn begin(n_anchors: u64, block_size: usize) -> (r: ProbeTally)
        requires
            n_anchors * block_size <= u64::MAX,
        ensures
            r.wf(),
            r.n_anchors == n_anchors,
            r.block_size == block_size,
            r.anchors_done == 0,
            r.mismatch_blocks == 0,
            r.read_error_blocks == 0,
            r.valid_bytes == 0,
            r.sample_status is None,
    {
        ProbeTally {
            n_anchors,
            block_size,
            anchors_done: 0,
            mismatch_blocks: 0,
            read_error_blocks: 0,
            valid_bytes: 0,
            sample_status: None,
        }
    }

    /// Tallies one anchor that could not be read back.
    pub fn record_read_error(&mut self)
        requires
            old(self).wf(),
            old(self).anchors_done < old(self).n_anchors,
        ensures
            final(self).wf(),
            final(self).read_error_blocks == old(self).read_error_blocks + 1,
            final(self).anchors_done == old(self).anchors_done + 1,
            final(self).mismatch_blocks == old(self).mismatch_blocks,
            final(self).valid_bytes == old(self).valid_bytes,
            final(self).sample_status == old(self).sample_status,
            final(self).n_anchors == old(self).n_anchors,
            final(self).block_size == old(self).block_size,
    {
        proof {
            lemma_anchor_step(self.anchors_done, self.n_anchors, self.block_size);
        }
        self.read_error_blocks = self.read_error_blocks + 1;
        self.anchors_done = self.anchors_done + 1;
    }

    /// Tallies one anchor that was read back. A match of the anchor's own
    /// pattern counts one block of valid bytes. A mismatch is counted; when
    /// the bytes instead match a different anchor's pattern, the probe
    /// classifies FakeCapacity and stops (the returned flag), otherwise it
    /// records a generic corruption sample and keeps scanning.
    pub fn record_block(&mut self, offsets: &Vec<u64>, current: u64, buffer: &Vec<u8>) -> (stop:
        bool)
        requires
            old(self).wf(),
            old(self).anchors_done < old(self).n_anchors,
            buffer@.len() == old(self).block_size,
        ensures
            final(self).wf(),
            final(self).anchors_done == old(self).anchors_done + 1,
            final(self).read_error_blocks == old(self).read_error_blocks,
            final(self).n_anchors == old(self).n_anchors,
            final(self).block_size == old(self).block_size,
            block_matches(current, buffer@) ==> {
                &&& final(self).valid_bytes == old(self).valid_bytes + old(self).block_size
                &&& final(self).mismatch_blocks == old(self).mismatch_blocks
                &&& final(self).sample_status == old(self).sample_status
                &&& stop == false
            },
            !block_matches(current, buffer@) ==> {
                &&& final(self).valid_bytes == old(self).valid_bytes
                &&& final(self).mismatch_blocks == old(self).mismatch_blocks + 1
                &&& {
                    let wrapped = exists|i: int|
                        0 <= i < offsets@.len() && offsets@[i] != current && block_matches(
                            offsets@[i],
                            buffer@,
                        );
                    if wrapped {
                        final(self).sample_status == Some(DriveHealthStatus::FakeCapacity) && stop
                            == true
                    } else {
                        stop == false && final(self).sample_status == if old(
                            self,
                        ).sample_status is None {
                            Some(DriveHealthStatus::PhysicalCorruption)
                        } else {
                            old(self).sample_status
                        }
                    }
                }
            },
            severity_opt(final(self).sample_status) >= severity_opt(old(self).sample_status),
    {
        proof {
            lemma_anchor_step(self.anchors_done, self.n_anchors, self.block_size);
        }
        let stop: bool;
        if verify_block(current, buffer).is_ok() {
            self.valid_bytes = self.valid_bytes + self.block_size as u64;
            stop = false;
        } else {
            self.mismatch_blocks = self.mismatch_blocks + 1;
            if matches_other_anchor(offsets, current, buffer) {
                self.sample_status = Some(DriveHealthStatus::FakeCapacity);
                stop = true;
            } else {
                if self.sample_status.is_none() {
                    self.sample_status = Some(DriveHealthStatus::PhysicalCorruption);
                }
                stop = false;
            }
        }
        self.anchors_done = self.anchors_done + 1;
        stop
    }

    /// Closes the probe: `None` is the inexpensive all-clear (no anomaly at
    /// any anchor; not a guarantee equivalent to a full scan), `Some` carries
    /// a report scoped to the sampled anchors, whose tested bytes are the
    /// whole anchor set even when the probe stopped at a conclusive
    /// wraparound.
    pub fn finish(&self, limit_bytes: u64) -> (r: Option<DiagnosisReport>)
        requires
            self.wf(),
        ensures
            r is None <==> self.mismatch_blocks + self.read_error_blocks == 0,
            r matches Some(rep) ==> {
                &&& rep.total_capacity == limit_bytes
                &&& rep.tested_bytes == self.n_anchors * self.block_size
                &&& rep.valid_bytes == self.valid_bytes
                &&& rep.error_count == self.mismatch_blocks + self.read_error_blocks
                &&& rep.status == report_status(
                    self.mismatch_blocks,
                    self.read_error_blocks,
                    self.sample_status,
                )
                &&& rep.health_score_centi == spec_score_centi(self.valid_bytes, limit_bytes)
                &&& rep.conclusion@ == conclusion_text(
                    rep.status,
                    rep.error_count,
                    rep.tested_bytes,
                    limit_bytes,
                )
            },
    {
        proof {
            vstd::arithmetic::mul::lemma_mul_inequality(
                self.anchors_done as int,
                self.n_anchors as int,
                self.block_size as int,
            );
        }
        let tested_bytes = self.n_anchors * self.block_size as u64;
        let report = generate_report(
            limit_bytes,
            tested_bytes,
            self.valid_bytes,
            self.mismatch_blocks,
            self.read_error_blocks,
            self.sample_status,
        );
        if report.error_count == 0 {
            None
        } else {
            Some(report)
        }
    }
}

/// One more tested anchor keeps the per-anchor tallies within the sampled
/// span's byte count.
proof fn lemma_anchor_step(anchors_done: u64, n_anchors: u64, block_size: usize)
    requires
        anchors_done < n_anchors,
        n_anchors * block_size <= u64::MAX,
    ensures
        (anchors_done + 1) * block_size == anchors_done * block_size + block_size,
        anchors_done * block_size + block_size <= n_anchors * block_size,
        anchors_done + 1 <= n_anchors,
{
    vstd::arithmetic::mul::lemma_mul_is_distributive_add_other_way(
        block_size as int,
        anchors_done as int,
        1,
    );
    vstd::arithmetic::mul::lemma_mul_inequality(
        anchors_done as int + 1,
        n_anchors as int,
        block_size as int,
    );
}

/// Whether the bytes found at one anchor are exactly the pattern expected at
/// some other anchor: the signature of fake-capacity wraparound.
pub fn matches_other_anchor(offsets: &Vec<u64>, current: u64, buffer: &Vec<u8>) -> (r: bool)
    ensures
        r == exists|i: int|
            0 <= i < offsets@.len() && offsets@[i] != current && block_matches(
                offsets@[i],
                buffer@,
            ),
{
    let n = offsets.len();
    let mut i: usize = 0;
    while i < n
        invariant
            i <= n,
            n == offsets@.len(),
            forall|j: int|
                0 <= j < i ==> !(offsets@[j] != current && block_matches(offsets@[j], buffer@)),
        decreases n - i,
    {
        let anchor = *offsets.get(i).unwrap();
        if anchor != current {
            if verify_block(anchor, buffer).is_ok() {
                return true;
            }
        }
        i = i + 1;
    }
    false
}

} // verus!
