//! Full-scan locator: walks a routine's code byte by byte, records every
//! occurrence of the structural pattern, stops at the first thing that looks
//! like the routine's end, and checks that the sites found across related
//! routines agree on the shared structural byte.

use vstd::prelude::*;

use crate::error::PatchError;
use crate::patch;
use crate::pattern;
use crate::pattern::Site;

verus! {

/// A bounded snapshot of one routine's machine code, taken by the embedding
/// program starting at the routine's entry address.
pub struct Routine {
    /// Address of the routine's first byte in the process image.
    pub base: usize,
    /// The routine's leading bytes. The snapshot's length is the hard cap on
    /// how far the scan may run past the entry.
    pub bytes: Vec<u8>,
}

/// A located site with its absolute address in the process image.
#[derive(Clone, Copy, PartialEq, Eq, Structural, Debug)]
pub struct ResolvedSite {
    /// The pattern's third byte; every resolved site must agree on it.
    pub mid: u8,
    /// Absolute address of the byte the patch rewrites.
    pub addr: usize,
}

/// The scan of a routine ran to a boundary and located at least one site.
pub open spec fn routine_ok(rt: Routine) -> bool {
    &&& pattern::first_boundary(rt.base as int, rt.bytes@) < rt.bytes@.len()
    &&& routine_sites(rt).len() > 0
}

/// The scan of a routine hit the end of the snapshot before any boundary.
pub open spec fn routine_unbounded(rt: Routine) -> bool {
    pattern::first_boundary(rt.base as int, rt.bytes@) == rt.bytes@.len()
}

/// The scan of a routine found a boundary but no site before it.
pub open spec fn routine_unmatched(rt: Routine) -> bool {
    &&& pattern::first_boundary(rt.base as int, rt.bytes@) < rt.bytes@.len()
    &&& routine_sites(rt).len() == 0
}

/// The sites the scan locates in one routine: every pattern match before the
/// first boundary, in increasing order.
pub open spec fn routine_sites(rt: Routine) -> Seq<Site> {
    pattern::sites_in(rt.bytes@, 0, pattern::first_boundary(rt.base as int, rt.bytes@))
}

/// A routine's located sites with absolute addresses filled in.
pub open spec fn routine_resolved(rt: Routine) -> Seq<ResolvedSite> {
    routine_sites(rt).map_values(
        |st: Site| ResolvedSite { mid: st.mid, addr: (rt.base + st.pos) as usize },
    )
}

/// The resolved sites of the first `k` routines, in routine order.
pub open spec fn resolved_upto(rts: Seq<Routine>, k: int) -> Seq<ResolvedSite>
    decreases k,
{
    if k <= 0 {
        Seq::empty()
    } else {
        resolved_upto(rts, k - 1) + routine_resolved(rts[k - 1])
    }
}

/// The resolved sites of every routine, in routine order.
pub open spec fn resolved_sites(rts: Seq<Routine>) -> Seq<ResolvedSite> {
    resolved_upto(rts, rts.len() as int)
}

/// Every resolved site carries the same structural byte as the first one.
pub open spec fn consistent(sites: Seq<ResolvedSite>) -> bool {
    forall|k: int| 0 <= k < sites.len() ==> (#[trigger] sites[k]).mid == sites[0].mid
}

/// Scan one routine for the four-byte structural pattern.
///
/// Walks the snapshot from the start. At each index, first the boundary
/// heuristic is consulted: a return or trap opcode in the last byte of a
/// 16-byte slot ends the routine and the scan. Otherwise, a pattern match
/// starting there records the middle byte and the terminator's index. The
/// scan must see a boundary within the snapshot — the snapshot's length is
/// the cap that keeps the heuristic honest — and must have located at least
/// one site by then.
pub fn scan_routine(base: usize, bytes: &Vec<u8>) -> (r: Result<Vec<Site>, PatchError>)
    requires
        base + bytes@.len() <= usize::MAX,
    ensures
        match r {
            Ok(sites) => {
                let fb = pattern::first_boundary(base as int, bytes@);
                &&& fb < bytes@.len()
                &&& sites@ == pattern::sites_in(bytes@, 0, fb)
                &&& sites@.len() > 0
            },
            Err(e) => match e {
                PatchError::MissingBoundary => pattern::first_boundary(base as int, bytes@)
                    == bytes@.len(),
                PatchError::ShapeMismatch => {
                    let fb = pattern::first_boundary(base as int, bytes@);
                    &&& fb < bytes@.len()
                    &&& pattern::sites_in(bytes@, 0, fb).len() == 0
                },
                _ => false,
            },
        },
{
    let ghost s = bytes@;
    let n = bytes.len();
    let mut out: Vec<Site> = Vec::new();
    let mut i: usize = 0;
    while i < n
        invariant
            i <= n,
            n == s.len(),
            s == bytes@,
            base + n <= usize::MAX,
            out@ == pattern::sites_in(s, 0, i as int),
            forall|j: int| 0 <= j < i ==> !pattern::is_boundary_at(base as int, s, j),
        decreases n - i,
    {
        let b = bytes[i];
        if (base + i) % 16 == 15 && (b == pattern::RET_BYTE || b == pattern::TRAP_BYTE) {
            proof {
                pattern::lemma_first_boundary_skip(base as int, s, 0, i as int);
                assert(pattern::first_boundary(base as int, s) == i);
            }
            if out.len() == 0 {
                return Err(PatchError::ShapeMismatch);
            }
            return Ok(out);
        }
        if n - i > 3 && b == pattern::MARKER_BYTE && (bytes[i + 1] & 0xF0)
            == pattern::MID_HIGH_NIBBLE && bytes[i + 3] == pattern::ORIGINAL_BYTE {
            out.push(Site { mid: bytes[i + 2], pos: i + 3 });
        }
        proof {
            pattern::lemma_sites_in_snoc(s, 0, i as int);
        }
        i = i + 1;
    }
    proof {
        pattern::lemma_first_boundary_skip(base as int, s, 0, n as int);
    }
    Err(PatchError::MissingBoundary)
}

/// Every site the scan locates still holds the original encoding in the
/// snapshot it was located in: the byte the patch rewrites is the pattern's
/// own terminator. Together with the applier's round-trip law, this is what
/// makes toggling on and then off restore the routine byte for byte.
pub proof fn lemma_located_sites_pristine(rt: Routine)
    requires
        rt.bytes@.len() <= usize::MAX,
    ensures
        forall|k: int| 0 <= k < routine_sites(rt).len()
            ==> (#[trigger] routine_sites(rt)[k]).pos < rt.bytes@.len()
                && rt.bytes@[routine_sites(rt)[k].pos as int] == pattern::ORIGINAL_BYTE,
{
    pattern::lemma_first_boundary_range(rt.base as int, rt.bytes@, 0);
    pattern::lemma_sites_in_props(
        rt.bytes@,
        0,
        pattern::first_boundary(rt.base as int, rt.bytes@),
    );
}

/// Round trip over a freshly scanned routine: toggling its located sites on
/// and then off restores the snapshot byte for byte.
pub proof fn lemma_routine_round_trip(rt: Routine)
    requires
        rt.bytes@.len() <= usize::MAX,
    ensures
        ({
            let ps = routine_sites(rt).map_values(|st: Site| st.pos);
            patch::region_after(patch::region_after(rt.bytes@, ps, true), ps, false) == rt.bytes@
        }),
{
    lemma_located_sites_pristine(rt);
    let ps = routine_sites(rt).map_values(|st: Site| st.pos);
    assert forall|k: int| 0 <= k < ps.len() implies (#[trigger] ps[k]) < rt.bytes@.len()
        && rt.bytes@[ps[k] as int] == pattern::ORIGINAL_BYTE by {
        assert(ps[k] == routine_sites(rt)[k].pos);
    }
    patch::lemma_round_trip(rt.bytes@, ps);
}

/// Check that every resolved site agrees on the shared structural byte.
///
/// The first site fixes the expected byte; the first site that deviates from
/// it is named in the failure.
pub fn check_consistent(sites: &Vec<ResolvedSite>) -> (r: Result<(), PatchError>)
    ensures
        match r {
            Ok(()) => consistent(sites@),
            Err(e) => {
                &&& !consistent(sites@)
                &&& exists|k: int| 0 <= k < sites@.len()
                    && e == (PatchError::InconsistentSites {
                        expected: sites@[0].mid,
                        found: (#[trigger] sites@[k]).mid,
                    })
                    && sites@[k].mid != sites@[0].mid
                    && forall|j: int| 0 <= j < k ==> (#[trigger] sites@[j]).mid == sites@[0].mid
            },
        },
{
    if sites.len() == 0 {
        return Ok(());
    }
    let expected = sites[0].mid;
    let mut k: usize = 1;
    let n = sites.len();
    while k < n
        invariant
            1 <= k <= n,
            n == sites@.len(),
            expected == sites@[0].mid,
            forall|j: int| 0 <= j < k ==> (#[trigger] sites@[j]).mid == expected,
        decreases n - k,
    {
        let found = sites[k].mid;
        if found != expected {
            return Err(PatchError::InconsistentSites { expected, found });
        }
        k = k + 1;
    }
    Ok(())
}

/// Scan every related routine and resolve absolute site addresses.
///
/// Routines are scanned in order; the first scan failure is the result.
pub fn scan_routines(routines: &Vec<Routine>) -> (r: Result<Vec<ResolvedSite>, PatchError>)
    requires
        forall|k: int| 0 <= k < routines@.len()
            ==> (#[trigger] routines@[k]).base + routines@[k].bytes@.len() <= usize::MAX,
    ensures
        match r {
            Ok(sites) => {
                &&& forall|k: int| 0 <= k < routines@.len() ==> routine_ok(#[trigger] routines@[k])
                &&& sites@ == resolved_sites(routines@)
            },
            Err(e) => match e {
                PatchError::MissingBoundary => exists|k: int| 0 <= k < routines@.len()
                    && routine_unbounded(#[trigger] routines@[k])
                    && forall|j: int| 0 <= j < k ==> routine_ok(#[trigger] routines@[j]),
                PatchError::ShapeMismatch => exists|k: int| 0 <= k < routines@.len()
                    && routine_unmatched(#[trigger] routines@[k])
                    && forall|j: int| 0 <= j < k ==> routine_ok(#[trigger] routines@[j]),
                _ => false,
            },
        },
{
    let ghost rts = routines@;
    let mut out: Vec<ResolvedSite> = Vec::new();
    let mut k: usize = 0;
    let n = routines.len();
    while k < n
        invariant
            k <= n,
            n == rts.len(),
            rts == routines@,
            forall|j: int| 0 <= j < rts.len()
                ==> (#[trigger] rts[j]).base + rts[j].bytes@.len() <= usize::MAX,
            forall|j: int| 0 <= j < k ==> routine_ok(#[trigger] rts[j]),
            out@ == resolved_upto(rts, k as int),
        decreases n - k,
    {
        let rt = &routines[k];
        let ghost fb = pattern::first_boundary(rt.base as int, rt.bytes@);
        match scan_routine(rt.base, &rt.bytes) {
            Ok(sites) => {
                proof {
                    pattern::lemma_first_boundary_range(rt.base as int, rt.bytes@, 0);
                    pattern::lemma_sites_in_props(rt.bytes@, 0, fb);
                }
                let ghost before = out@;
                let mut m: usize = 0;
                let len = sites.len();
                while m < len
                    invariant
                        m <= len,
                        len == sites@.len(),
                        sites@ == routine_sites(rts[k as int]),
                        rts == routines@,
                        k < rts.len(),
                        rts[k as int].base + rts[k as int].bytes@.len() <= usize::MAX,
                        forall|q: int| 0 <= q < sites@.len()
                            ==> (#[trigger] sites@[q]).pos < rts[k as int].bytes@.len(),
                        out@ == before + routine_resolved(rts[k as int]).take(m as int),
                    decreases len - m,
                {
                    let st = sites[m];
                    out.push(ResolvedSite { mid: st.mid, addr: routines[k].base + st.pos });
                    proof {
                        assert(out@ =~= before + routine_resolved(rts[k as int]).take(
                            m as int + 1));
                    }
                    m = m + 1;
                }
                proof {
                    assert(routine_resolved(rts[k as int]).take(len as int) =~= routine_resolved(
                        rts[k as int]));
                    assert(out@ == resolved_upto(rts, k as int + 1));
                }
            },
            Err(e) => {
                return Err(e);
            },
        }
        k = k + 1;
    }
    Ok(out)
}

/// Locate the mutable sites across every related routine, in one pass.
///
/// Scans each routine in order, resolves absolute addresses, and then
/// requires every located site to agree on the shared structural byte. The
/// first failure — a missing boundary, a routine with no match, or a
/// disagreeing site — is the result, and nothing is resolved.
pub fn resolve(routines: &Vec<Routine>) -> (r: Result<Vec<ResolvedSite>, PatchError>)
    requires
        forall|k: int| 0 <= k < routines@.len()
            ==> (#[trigger] routines@[k]).base + routines@[k].bytes@.len() <= usize::MAX,
    ensures
        match r {
            Ok(sites) => {
                &&& forall|k: int| 0 <= k < routines@.len() ==> routine_ok(#[trigger] routines@[k])
                &&& sites@ == resolved_sites(routines@)
                &&& consistent(resolved_sites(routines@))
            },
            Err(e) => match e {
                PatchError::MissingBoundary => exists|k: int| 0 <= k < routines@.len()
                    && routine_unbounded(#[trigger] routines@[k])
                    && forall|j: int| 0 <= j < k ==> routine_ok(#[trigger] routines@[j]),
                PatchError::ShapeMismatch => exists|k: int| 0 <= k < routines@.len()
                    && routine_unmatched(#[trigger] routines@[k])
                    && forall|j: int| 0 <= j < k ==> routine_ok(#[trigger] routines@[j]),
                PatchError::InconsistentSites { expected, found } => {
                    let sites = resolved_sites(routines@);
                    &&& forall|k: int| 0 <= k < routines@.len()
                        ==> routine_ok(#[trigger] routines@[k])
                    &&& !consistent(sites)
                    &&& exists|k: int| 0 <= k < sites.len()
                        && expected == sites[0].mid
                        && found == (#[trigger] sites[k]).mid
                        && found != expected
                        && forall|j: int| 0 <= j < k ==> (#[trigger] sites[j]).mid == sites[0].mid
                },
                _ => false,
            },
        },
{
    let sites = match scan_routines(routines) {
        Ok(sites) => sites,
        Err(e) => {
            return Err(e);
        },
    };
    match check_consistent(&sites) {
        Ok(()) => Ok(sites),
        Err(e) => Err(e),
    }
}

} // verus!
