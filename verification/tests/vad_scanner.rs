use drriga_agent::vad_scanner::{
    protect_matches, MemoryRegionInfo, ScanStep, SuspicionReason, SuspiciousRegion, VadScanner,
    MEM_COMMIT,
};

fn region(base: usize, size: usize, state: u32, protect: u32) -> MemoryRegionInfo {
    MemoryRegionInfo { base, size, state, protect }
}

#[test]
fn protection_modifiers_are_ignored() {
    assert!(protect_matches(0x40 | 0x100, 0x40));
    assert!(protect_matches(0x80 | 0x200, 0x80));
    assert!(!protect_matches(0x20, 0x40));
}

#[test]
fn rwx_and_wx_committed_regions_are_reported() {
    let scanner = VadScanner::new();
    assert_eq!(
        scanner.classify_region(&region(0x5000, 0x1000, MEM_COMMIT, 0x140)),
        Some(SuspiciousRegion {
            base: 0x5000,
            size: 0x1000,
            protection: 0x140,
            reason: SuspicionReason::RwxCommitted
        })
    );
    assert_eq!(
        scanner.classify_region(&region(0x6000, 0x1000, MEM_COMMIT, 0x80)).map(|r| r.reason),
        Some(SuspicionReason::ExecuteWriteCopy)
    );
}

#[test]
fn other_regions_are_not_reported() {
    let scanner = VadScanner::new();
    assert_eq!(scanner.classify_region(&region(0x5000, 0x1000, 0x2000, 0x40)), None);
    assert_eq!(scanner.classify_region(&region(0x5000, 0x1000, MEM_COMMIT, 0x20)), None);
    assert_eq!(scanner.classify_region(&region(0x5000, 0x1000, MEM_COMMIT, 0x04)), None);
}

#[test]
fn code_cache_regions_are_not_reported() {
    let mut scanner = VadScanner::new();
    scanner.set_jit_bounds((0x5000, 0x6000));
    assert_eq!(scanner.classify_region(&region(0x5000, 0x1000, MEM_COMMIT, 0x40)), None);
    assert!(scanner.classify_region(&region(0x6000, 0x1000, MEM_COMMIT, 0x40)).is_some());
    assert!(scanner.classify_region(&region(0x4fff, 0x1000, MEM_COMMIT, 0x40)).is_some());
}

#[test]
fn scan_walks_regions_and_stops() {
    let scanner = VadScanner::new();
    let mut found = Vec::new();
    let answers = [
        region(0, 0x1000, 0x10000, 0x01),
        region(0x1000, 0x2000, MEM_COMMIT, 0x40),
        region(0x3000, 0x1000, MEM_COMMIT, 0x02),
    ];
    let mut address = 0usize;
    let mut steps = 0;
    loop {
        let info = answers.iter().copied().find(|r| r.base == address);
        match scanner.scan_step(address, info, &mut found) {
            ScanStep::Continue(next) => address = next,
            ScanStep::Stop => break,
        }
        steps += 1;
    }
    assert_eq!(steps, 3);
    assert_eq!(address, 0x4000);
    assert_eq!(found.len(), 1);
    assert_eq!(found[0].base, 0x1000);
}

#[test]
fn scan_stops_on_empty_region_and_overflow() {
    let scanner = VadScanner::new();
    let mut found = Vec::new();
    assert_eq!(scanner.scan_step(0x1000, Some(region(0x1000, 0, MEM_COMMIT, 0x40)), &mut found), ScanStep::Stop);
    assert_eq!(found.len(), 1);
    assert_eq!(
        scanner.scan_step(usize::MAX - 10, Some(region(usize::MAX - 10, 0x1000, 0, 0)), &mut found),
        ScanStep::Stop
    );
    assert_eq!(scanner.scan_step(0, None, &mut found), ScanStep::Stop);
    assert_eq!(found.len(), 1);
}

#[test]
fn code_cache_bounds_only_remove_regions_from_a_walk() {
    let answers = [
        region(0, 0x1000, MEM_COMMIT, 0x40),
        region(0x1000, 0x1000, MEM_COMMIT, 0x80),
        region(0x2000, 0x1000, MEM_COMMIT, 0x40),
    ];
    let walk = |scanner: &VadScanner| {
        let mut found = Vec::new();
        for a in answers.iter() {
            scanner.scan_step(a.base, Some(*a), &mut found);
        }
        found
    };
    let plain = VadScanner::new();
    let mut bounded = VadScanner::new();
    bounded.set_jit_bounds((0x1000, 0x2000));
    let all = walk(&plain);
    let kept = walk(&bounded);
    assert_eq!(all.len(), 3);
    let expected: Vec<SuspiciousRegion> =
        all.into_iter().filter(|r| !(0x1000 <= r.base && r.base < 0x2000)).collect();
    assert_eq!(kept, expected);
}
