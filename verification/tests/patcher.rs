use live_patch::cache::Patcher;
use live_patch::error::{hex_dump, PatchError};
use live_patch::patch::{apply_to_region, plan_write, plan_writes};
use live_patch::pattern::Site;
use live_patch::scan::{check_consistent, resolve, scan_routine, ResolvedSite, Routine};
use live_patch::sig::{plan_write_pair, resolve_fixed, FixedSite, Signature};
use live_patch::toggle_target;

/// A 16-byte routine at a 16-byte-aligned base: one pattern match at index
/// 4 (`F6 45 <mid> 04`), filler elsewhere, and a return opcode in the last
/// byte of the slot.
fn routine_bytes(mid: u8) -> Vec<u8> {
    let mut v = vec![0x55u8; 16];
    v[4] = 0xF6;
    v[5] = 0x45;
    v[6] = mid;
    v[7] = 0x04;
    v[15] = 0xC3;
    v
}

#[test]
fn scan_finds_single_site() {
    let bytes = routine_bytes(0x17);
    let sites = scan_routine(0x1000, &bytes).unwrap();
    assert_eq!(sites, vec![Site { mid: 0x17, pos: 7 }]);
}

#[test]
fn scan_finds_several_sites_in_order() {
    let mut v = vec![0x55u8; 32];
    v[0] = 0xF6;
    v[1] = 0x4A;
    v[2] = 0x17;
    v[3] = 0x04;
    v[8] = 0xF6;
    v[9] = 0x40;
    v[10] = 0x17;
    v[11] = 0x04;
    v[31] = 0xCC;
    let sites = scan_routine(0x2000, &v).unwrap();
    assert_eq!(
        sites,
        vec![Site { mid: 0x17, pos: 3 }, Site { mid: 0x17, pos: 11 }]
    );
}

#[test]
fn scan_ignores_unaligned_return_opcode() {
    // A return opcode that does not sit in the last byte of a 16-byte slot
    // does not end the routine: a site past it is still found.
    let mut v = vec![0x55u8; 16];
    v[3] = 0xC3;
    v[8] = 0xF6;
    v[9] = 0x45;
    v[10] = 0x2A;
    v[11] = 0x04;
    v[15] = 0xC3;
    let sites = scan_routine(0x3000, &v).unwrap();
    assert_eq!(sites, vec![Site { mid: 0x2A, pos: 11 }]);
}

#[test]
fn scan_alignment_follows_base_address() {
    // With the base shifted by one, the slot boundary falls at index 14,
    // not 15, and the scan stops there.
    let mut v = vec![0x55u8; 20];
    v[2] = 0xF6;
    v[3] = 0x45;
    v[4] = 0x2A;
    v[5] = 0x04;
    v[14] = 0xC3;
    let sites = scan_routine(0x1001, &v).unwrap();
    assert_eq!(sites, vec![Site { mid: 0x2A, pos: 5 }]);
}

#[test]
fn scan_rejects_unknown_shape() {
    // No pattern before the boundary: the resident binary's shape is not a
    // registered one, and the locator must say so rather than proceed.
    let mut v = vec![0x55u8; 16];
    v[15] = 0xC3;
    assert_eq!(scan_routine(0x1000, &v), Err(PatchError::ShapeMismatch));
}

#[test]
fn scan_stops_at_length_cap() {
    // No boundary within the snapshot: the heuristic found nothing before
    // the hard cap, which must be reported, not scanned past.
    let bytes = vec![0x55u8; 64];
    assert_eq!(scan_routine(0x1000, &bytes), Err(PatchError::MissingBoundary));
}

#[test]
fn scan_pattern_needs_high_nibble() {
    // F6 with a second byte outside 0x40..=0x4F is not the pattern.
    let mut v = vec![0x55u8; 16];
    v[4] = 0xF6;
    v[5] = 0x35;
    v[6] = 0x17;
    v[7] = 0x04;
    v[15] = 0xC3;
    assert_eq!(scan_routine(0x1000, &v), Err(PatchError::ShapeMismatch));
}

#[test]
fn resolve_collects_absolute_addresses() {
    let routines = vec![
        Routine { base: 0x4000, bytes: routine_bytes(0x17) },
        Routine { base: 0x5000, bytes: routine_bytes(0x17) },
    ];
    let sites = resolve(&routines).unwrap();
    assert_eq!(
        sites,
        vec![
            ResolvedSite { mid: 0x17, addr: 0x4007 },
            ResolvedSite { mid: 0x17, addr: 0x5007 },
        ]
    );
}

#[test]
fn resolve_rejects_disagreeing_sites() {
    let routines = vec![
        Routine { base: 0x4000, bytes: routine_bytes(0x17) },
        Routine { base: 0x5000, bytes: routine_bytes(0x23) },
    ];
    assert_eq!(
        resolve(&routines),
        Err(PatchError::InconsistentSites { expected: 0x17, found: 0x23 })
    );
}

#[test]
fn resolve_reports_first_failing_routine() {
    let routines = vec![
        Routine { base: 0x4000, bytes: routine_bytes(0x17) },
        Routine { base: 0x5000, bytes: vec![0x55u8; 8] },
    ];
    assert_eq!(resolve(&routines), Err(PatchError::MissingBoundary));
}

#[test]
fn consistency_accepts_empty_and_uniform() {
    let empty: Vec<ResolvedSite> = vec![];
    assert_eq!(check_consistent(&empty), Ok(()));
    let uniform = vec![
        ResolvedSite { mid: 9, addr: 1 },
        ResolvedSite { mid: 9, addr: 2 },
    ];
    assert_eq!(check_consistent(&uniform), Ok(()));
}

#[test]
fn resolution_is_memoized() {
    // Resolving twice in the same run yields the identical sites: the
    // second call must not rescan, even when handed different snapshots.
    let first = vec![Routine { base: 0x4000, bytes: routine_bytes(0x17) }];
    let second = vec![Routine { base: 0x9000, bytes: routine_bytes(0x23) }];
    let mut patcher = Patcher::new();
    assert!(!patcher.is_resolved());
    patcher.resolve_once(&first).unwrap();
    let after_first = patcher.sites().unwrap().clone();
    patcher.resolve_once(&second).unwrap();
    let after_second = patcher.sites().unwrap().clone();
    assert_eq!(after_first, after_second);
    assert_eq!(after_first, vec![ResolvedSite { mid: 0x17, addr: 0x4007 }]);
}

#[test]
fn failed_resolution_leaves_cache_empty() {
    let bad = vec![Routine { base: 0x4000, bytes: vec![0x55u8; 8] }];
    let mut patcher = Patcher::new();
    assert_eq!(patcher.resolve_once(&bad), Err(PatchError::MissingBoundary));
    assert!(!patcher.is_resolved());
    assert!(patcher.sites().is_none());
}

#[test]
fn plan_write_both_directions() {
    assert_eq!(toggle_target(true), 0x00);
    assert_eq!(toggle_target(false), 0x04);
    assert_eq!(plan_write(0x04, true), Ok(0x00));
    assert_eq!(plan_write(0x00, true), Ok(0x00));
    assert_eq!(plan_write(0x04, false), Ok(0x04));
    assert_eq!(plan_write(0x00, false), Ok(0x04));
}

#[test]
fn plan_write_rejects_unknown_byte() {
    assert_eq!(
        plan_write(0x75, true),
        Err(PatchError::UnexpectedState { found: 0x75 })
    );
}

#[test]
fn plan_writes_verifies_every_site_first() {
    let current = vec![0x04u8, 0x00, 0x04];
    assert_eq!(plan_writes(&current, true), Ok(vec![0x00u8, 0x00, 0x00]));
    assert_eq!(plan_writes(&current, false), Ok(vec![0x04u8, 0x04, 0x04]));
    let tampered = vec![0x04u8, 0x90, 0x00];
    assert_eq!(
        plan_writes(&tampered, true),
        Err(PatchError::UnexpectedState { found: 0x90 })
    );
}

#[test]
fn toggle_is_idempotent_on_region() {
    let original = routine_bytes(0x17);
    let positions = vec![7usize];
    let mut once = original.clone();
    apply_to_region(&mut once, &positions, true).unwrap();
    let mut twice = once.clone();
    apply_to_region(&mut twice, &positions, true).unwrap();
    assert_eq!(once, twice);
    assert_eq!(once[7], 0x00);
}

#[test]
fn round_trip_restores_region_byte_for_byte() {
    let original = routine_bytes(0x17);
    let positions = vec![7usize];
    let mut image = original.clone();
    apply_to_region(&mut image, &positions, true).unwrap();
    assert_ne!(image, original);
    apply_to_region(&mut image, &positions, false).unwrap();
    assert_eq!(image, original);
}

#[test]
fn sibling_bytes_are_untouched() {
    // Two routines in one region; only the second holds the resolved site.
    // Every byte of the first — the structurally different sibling — must
    // be identical before and after the toggle, in both directions.
    let mut image = routine_bytes(0x17);
    image.extend_from_slice(&routine_bytes(0x17));
    let original = image.clone();
    let site = 16 + 7usize;
    let positions = vec![site];
    apply_to_region(&mut image, &positions, true).unwrap();
    for i in 0..image.len() {
        if i != site {
            assert_eq!(image[i], original[i]);
        }
    }
    assert_eq!(image[site], 0x00);
    apply_to_region(&mut image, &positions, false).unwrap();
    assert_eq!(image, original);
}

#[test]
fn tampered_region_is_left_untouched() {
    let mut image = routine_bytes(0x17);
    image[7] = 0x66;
    let before = image.clone();
    assert_eq!(
        apply_to_region(&mut image, &vec![7usize], true),
        Err(PatchError::UnexpectedState { found: 0x66 })
    );
    assert_eq!(image, before);
}

#[test]
fn fixed_resolver_first_match_wins() {
    // Both the second and the third signature match; the earliest listed
    // matching entry decides the site.
    let table = vec![
        Signature { offset: 0, b0: 0xAA, b1: 0xBB },
        Signature { offset: 4, b0: 0xCC, b1: 0xDD },
        Signature { offset: 6, b0: 0xEE, b1: 0xFF },
    ];
    let mut bytes = vec![0u8; 8];
    bytes[4] = 0xCC;
    bytes[5] = 0xDD;
    bytes[6] = 0xEE;
    bytes[7] = 0xFF;
    assert_eq!(
        resolve_fixed(&table, &bytes),
        Ok(FixedSite { offset: 4, orig0: 0xCC, orig1: 0xDD })
    );
}

#[test]
fn fixed_resolver_accepts_already_patched_pair() {
    // A site that already holds the no-op pair from an earlier toggle still
    // resolves, to the signature's original encoding.
    let table = vec![Signature { offset: 2, b0: 0xAA, b1: 0xBB }];
    let mut bytes = vec![0u8; 8];
    bytes[2] = 0x66;
    bytes[3] = 0x90;
    assert_eq!(
        resolve_fixed(&table, &bytes),
        Ok(FixedSite { offset: 2, orig0: 0xAA, orig1: 0xBB })
    );
}

#[test]
fn fixed_resolver_rejects_unknown_shape() {
    let table = vec![
        Signature { offset: 2, b0: 0xAA, b1: 0xBB },
        Signature { offset: 20, b0: 0xAA, b1: 0xBB },
    ];
    let bytes = vec![0u8; 8];
    assert_eq!(resolve_fixed(&table, &bytes), Err(PatchError::ShapeMismatch));
}

#[test]
fn pair_plan_both_directions_and_rejection() {
    let site = FixedSite { offset: 4, orig0: 0xAA, orig1: 0xBB };
    assert_eq!(plan_write_pair(0xAA, 0xBB, &site, true), Ok((0x66, 0x90)));
    assert_eq!(plan_write_pair(0x66, 0x90, &site, false), Ok((0xAA, 0xBB)));
    assert_eq!(plan_write_pair(0xAA, 0xBB, &site, false), Ok((0xAA, 0xBB)));
    assert_eq!(
        plan_write_pair(0xAA, 0x13, &site, true),
        Err(PatchError::UnexpectedState { found: 0x13 })
    );
}

#[test]
fn hex_dump_renders_lowercase_pairs() {
    let bytes = vec![0x00u8, 0x1A, 0xF6, 0xC3];
    assert_eq!(hex_dump(&bytes), b"00 1a f6 c3 ".to_vec());
    let empty: Vec<u8> = vec![];
    assert_eq!(hex_dump(&empty), Vec::<u8>::new());
}

#[test]
fn error_descriptions_are_distinct() {
    let errors = [
        PatchError::ShapeMismatch,
        PatchError::MissingBoundary,
        PatchError::InconsistentSites { expected: 1, found: 2 },
        PatchError::UnexpectedState { found: 3 },
        PatchError::ProtectionFailure,
    ];
    for a in 0..errors.len() {
        assert!(!errors[a].describe().is_empty());
        for b in 0..a {
            assert_ne!(errors[a].describe(), errors[b].describe());
        }
    }
}
