//! Classification of committed executable-and-writable memory regions, as
//! found by walking a process's address space with `VirtualQueryEx`:
//! read-write-execute and execute-write-copy regions outside the JVM code
//! cache are reported (manual mapping, reflective injection, shellcode).
//!
//! The walk itself queries the operating system and stays outside this
//! library; `scan_step` decides, for each answer, what is reported and
//! where the walk goes next.

use vstd::prelude::*;

verus! {

/// `MEM_COMMIT`: the region's pages are committed.
pub const MEM_COMMIT: u32 = 0x1000;

/// `PAGE_EXECUTE_READWRITE`.
pub const PAGE_EXECUTE_READWRITE: u32 = 0x40;

/// `PAGE_EXECUTE_WRITECOPY`.
pub const PAGE_EXECUTE_WRITECOPY: u32 = 0x80;

/// Why a region is reported.
#[derive(Debug, Clone, Copy, PartialEq, Eq, Structural)]
pub enum SuspicionReason {
    RwxCommitted,
    ExecuteWriteCopy,
}

/// A reported region.
#[derive(Debug, Clone, Copy, PartialEq, Eq, Structural)]
pub struct SuspiciousRegion {
    pub base: usize,
    pub size: usize,
    pub protection: u32,
    pub reason: SuspicionReason,
}

/// What `VirtualQueryEx` reported for one region
/// (`MEMORY_BASIC_INFORMATION`: `BaseAddress`, `RegionSize`, `State`,
/// `Protect`).
#[derive(Debug, Clone, Copy, PartialEq, Eq, Structural)]
pub struct MemoryRegionInfo {
    pub base: usize,
    pub size: usize,
    pub state: u32,
    pub protect: u32,
}

/// Where the walk goes after a region.
#[derive(Debug, Clone, Copy, PartialEq, Eq, Structural)]
pub enum ScanStep {
    /// Query the region at this address next.
    Continue(usize),
    /// The walk is over.
    Stop,
}

/// The scanner's settings.
pub struct VadScanner {
    /// The JVM code cache bounds `[low, high)`, if any: the JIT uses
    /// read-write-execute memory there legitimately.
    pub jit_code_cache_bounds: Option<(usize, usize)>,
}

/// The base protections agree once modifier bits (such as `PAGE_GUARD` or
/// `PAGE_NOCACHE`) are masked off.
pub open spec fn same_base_protection(actual: u32, flag: u32) -> bool {
    (actual & 0xFFu32) == (flag & 0xFFu32)
}

/// The reason a protection makes a committed region suspicious, if any.
pub open spec fn suspicion_of(protect: u32) -> Option<SuspicionReason> {
    if same_base_protection(protect, PAGE_EXECUTE_READWRITE) {
        Some(SuspicionReason::RwxCommitted)
    } else if same_base_protection(protect, PAGE_EXECUTE_WRITECOPY) {
        Some(SuspicionReason::ExecuteWriteCopy)
    } else {
        None
    }
}

/// The region starts inside the JVM code cache.
pub open spec fn in_jit_bounds(bounds: Option<(usize, usize)>, base: usize) -> bool {
    match bounds {
        Some((lo, hi)) => lo <= base && base < hi,
        None => false,
    }
}

/// What is reported for a region: a committed region whose base protection
/// is read-write-execute or execute-write-copy and which does not start in
/// the code cache.
pub open spec fn region_finding(bounds: Option<(usize, usize)>, info: MemoryRegionInfo) -> Option<SuspiciousRegion> {
    if info.state == MEM_COMMIT && suspicion_of(info.protect) is Some && !in_jit_bounds(
        bounds,
        info.base,
    ) {
        Some(
            SuspiciousRegion {
                base: info.base,
                size: info.size,
                protection: info.protect,
                reason: suspicion_of(info.protect)->0,
            },
        )
    } else {
        None
    }
}

/// Where the walk goes next: it stops when the query failed (end of the
/// address space or an access error), when the region is empty (no
/// progress) and when the next address would overflow.
pub open spec fn next_scan_step(address: usize, info: Option<MemoryRegionInfo>) -> ScanStep {
    match info {
        None => ScanStep::Stop,
        Some(i) => if i.size == 0 || address + i.size > usize::MAX {
            ScanStep::Stop
        } else {
            ScanStep::Continue((address + i.size) as usize)
        },
    }
}

/// The findings appended for one answer.
pub open spec fn step_findings(bounds: Option<(usize, usize)>, info: Option<MemoryRegionInfo>) -> Seq<SuspiciousRegion> {
    match info {
        Some(i) => match region_finding(bounds, i) {
            Some(f) => seq![f],
            None => Seq::empty(),
        },
        None => Seq::empty(),
    }
}

/// Compares base protections, ignoring modifier bits.
pub fn protect_matches(actual: u32, flag: u32) -> (r: bool)
    ensures
        r == same_base_protection(actual, flag),
{
    (actual & 0xFF) == (flag & 0xFF)
}

impl VadScanner {
    /// A scanner with no code cache bounds.
    pub fn new() -> (r: Self)
        ensures
            r.jit_code_cache_bounds is None,
    {
        VadScanner { jit_code_cache_bounds: None }
    }

    /// Sets the JVM code cache bounds whose regions are not reported.
    pub fn set_jit_bounds(&mut self, bounds: (usize, usize))
        ensures
            final(self).jit_code_cache_bounds == Some(bounds),
    {
        self.jit_code_cache_bounds = Some(bounds);
    }

    /// What is reported for one region.
    pub fn classify_region(&self, info: &MemoryRegionInfo) -> (r: Option<SuspiciousRegion>)
        ensures
            r == region_finding(self.jit_code_cache_bounds, *info),
    {
        if info.state != MEM_COMMIT {
            return None;
        }
        let protect = info.protect;
        let reason = if protect_matches(protect, PAGE_EXECUTE_READWRITE) {
            SuspicionReason::RwxCommitted
        } else if protect_matches(protect, PAGE_EXECUTE_WRITECOPY) {
            SuspicionReason::ExecuteWriteCopy
        } else {
            return None;
        };
        let in_jit_bounds = match self.jit_code_cache_bounds {
            Some((lo, hi)) => info.base >= lo && info.base < hi,
            None => false,
        };
        if in_jit_bounds {
            None
        } else {
            Some(SuspiciousRegion { base: info.base, size: info.size, protection: protect, reason })
        }
    }

    /// One step of the walk: `info` is the answer to the query at
    /// `address` (`None` when the query failed). Appends the region to
    /// `suspicious` if it is reported, and says where to query next.
    pub fn scan_step(
        &self,
        address: usize,
        info: Option<MemoryRegionInfo>,
        suspicious: &mut Vec<SuspiciousRegion>,
    ) -> (r: ScanStep)
        ensures
            final(suspicious)@ == old(suspicious)@ + step_findings(self.jit_code_cache_bounds, info),
            r == next_scan_step(address, info),
    {
        match info {
            None => ScanStep::Stop,
            Some(i) => {
                match self.classify_region(&i) {
                    Some(region) => suspicious.push(region),
                    None => {},
                }
                assert(suspicious@ =~= old(suspicious)@ + step_findings(
                    self.jit_code_cache_bounds,
                    info,
                ));
                if i.size == 0 {
                    ScanStep::Stop
                } else {
                    match address.checked_add(i.size) {
                        Some(next) => ScanStep::Continue(next),
                        None => ScanStep::Stop,
                    }
                }
            },
        }
    }
}

/// The walk makes progress: each step either stops or moves to a strictly
/// higher address, so a walk ends after finitely many queries.
pub proof fn lemma_scan_advances(address: usize, info: Option<MemoryRegionInfo>)
    ensures
        next_scan_step(address, info) matches ScanStep::Continue(next) ==> next > address,
{
}

/// Every reported region is committed, has a read-write-execute or
/// execute-write-copy base protection matching its reason, keeps the
/// queried base, size and full protection, and lies outside the code
/// cache.
pub proof fn lemma_findings_are_suspicious(bounds: Option<(usize, usize)>, info: MemoryRegionInfo)
    ensures
        region_finding(bounds, info) matches Some(f) ==> {
            &&& info.state == MEM_COMMIT
            &&& f.base == info.base && f.size == info.size && f.protection == info.protect
            &&& !in_jit_bounds(bounds, f.base)
            &&& (f.reason == SuspicionReason::RwxCommitted <==> same_base_protection(
                f.protection,
                PAGE_EXECUTE_READWRITE,
            ))
            &&& (f.reason == SuspicionReason::ExecuteWriteCopy ==> same_base_protection(
                f.protection,
                PAGE_EXECUTE_WRITECOPY,
            ))
        },
{
}


/// What a whole walk reports when its queries answered `answers` in turn
/// (the walk's steps, and so its answers, do not depend on the bounds).
pub open spec fn walk_findings(bounds: Option<(usize, usize)>, answers: Seq<MemoryRegionInfo>) -> Seq<SuspiciousRegion>
    decreases answers.len(),
{
    if answers.len() == 0 {
        Seq::empty()
    } else {
        walk_findings(bounds, answers.drop_last()) + step_findings(bounds, Some(answers.last()))
    }
}

/// Setting code cache bounds only removes regions from a walk: the report
/// is the report without bounds, less the regions that start inside them,
/// in the same order and otherwise unchanged.
pub proof fn lemma_jit_bounds_only_filter(lo: usize, hi: usize, answers: Seq<MemoryRegionInfo>)
    ensures
        walk_findings(Some((lo, hi)), answers) == walk_findings(None, answers).filter(
            |f: SuspiciousRegion| !(lo <= f.base && f.base < hi),
        ),
    decreases answers.len(),
{
    let pred = |f: SuspiciousRegion| !(lo <= f.base && f.base < hi);
    if answers.len() == 0 {
        reveal(Seq::filter);
        assert(walk_findings(None, answers).filter(pred) =~= Seq::<SuspiciousRegion>::empty());
    } else {
        let prefix = answers.drop_last();
        let last = answers.last();
        lemma_jit_bounds_only_filter(lo, hi, prefix);
        Seq::filter_distributes_over_add(
            walk_findings(None, prefix),
            step_findings(None, Some(last)),
            pred,
        );
        let empty = Seq::<SuspiciousRegion>::empty();
        reveal(Seq::filter);
        assert(empty.filter(pred) =~= empty);
        match region_finding(None, last) {
            Some(f) => {
                empty.lemma_filter_push(f, pred);
                assert(step_findings(None, Some(last)) =~= empty.push(f));
                if pred(f) {
                    assert(step_findings(None, Some(last)).filter(pred) =~= step_findings(
                        Some((lo, hi)),
                        Some(last),
                    ));
                } else {
                    assert(step_findings(None, Some(last)).filter(pred) =~= step_findings(
                        Some((lo, hi)),
                        Some(last),
                    ));
                }
            },
            None => {
                assert(step_findings(None, Some(last)) =~= empty);
                assert(step_findings(Some((lo, hi)), Some(last)) =~= empty);
            },
        }
    }
}


/// Which regions are reported, by their raw `VirtualQueryEx` fields: a
/// region is reported exactly when its state is `MEM_COMMIT` (0x1000), the
/// low byte of its protection is `PAGE_EXECUTE_READWRITE` (0x40) or
/// `PAGE_EXECUTE_WRITECOPY` (0x80), and its base is not inside the code
/// cache bounds — whatever its size. The report carries the region's base,
/// size and full protection, and its reason follows the low byte.
pub proof fn lemma_reported_exactly_committed_wx_outside_cache(
    bounds: Option<(usize, usize)>,
    info: MemoryRegionInfo,
)
    ensures
        region_finding(bounds, info) is Some <==> {
            &&& info.state == 0x1000u32
            &&& ((info.protect & 0xFFu32) == 0x40u32 || (info.protect & 0xFFu32) == 0x80u32)
            &&& !(bounds matches Some((lo, hi)) && lo <= info.base && info.base < hi)
        },
        region_finding(bounds, info) matches Some(f) ==> {
            &&& f.base == info.base
            &&& f.size == info.size
            &&& f.protection == info.protect
            &&& (info.protect & 0xFFu32) == 0x40u32 ==> f.reason == SuspicionReason::RwxCommitted
            &&& (info.protect & 0xFFu32) == 0x80u32 ==> f.reason
                == SuspicionReason::ExecuteWriteCopy
        },
{
    assert((0x40u32 & 0xFFu32) == 0x40u32 && (0x80u32 & 0xFFu32) == 0x80u32) by (bit_vector);
}

/// Where the walk goes depends only on the query having answered and on
/// the region's size, never on its state, protection or base: an answered,
/// non-empty region whose end does not overflow always leads on to
/// `address + size`, and the walk stops only on a failed query, an empty
/// region or an overflowing next address.
pub proof fn lemma_walk_continues_past_every_region(
    address: usize,
    info: Option<MemoryRegionInfo>,
    other: MemoryRegionInfo,
)
    ensures
        info is Some && info->0.size > 0 && address + info->0.size <= usize::MAX ==> next_scan_step(
            address,
            info,
        ) == ScanStep::Continue((address + info->0.size) as usize),
        next_scan_step(address, info) == ScanStep::Stop ==> (info is None || info->0.size == 0
            || address + info->0.size > usize::MAX),
        next_scan_step(address, info) matches ScanStep::Continue(next) ==> (info is Some && next
            == address + info->0.size),
        info is Some && other.size == info->0.size ==> next_scan_step(address, Some(other))
            == next_scan_step(address, info),
{
}

} // verus!
