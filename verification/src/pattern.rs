//! The byte-level shapes the locator searches for: the four-byte structural
//! pattern that marks a mutable site, the routine-boundary heuristic, and the
//! two interchangeable encodings a resolved site may hold.

use vstd::prelude::*;

verus! {

/// First byte of the conditional-test instruction the full scan searches for.
pub const MARKER_BYTE: u8 = 0xF6;

/// Required high nibble of the byte that follows the marker.
pub const MID_HIGH_NIBBLE: u8 = 0x40;

/// Last byte of the four-byte pattern. It is also the flag-test immediate the
/// patch overwrites, so a freshly located site always holds this byte.
pub const ORIGINAL_BYTE: u8 = 0x04;

/// No-op immediate written over `ORIGINAL_BYTE` while the patch is enabled.
pub const PATCHED_BYTE: u8 = 0x00;

/// Return opcode that may end a routine.
pub const RET_BYTE: u8 = 0xC3;

/// Trap (breakpoint padding) opcode that may end a routine.
pub const TRAP_BYTE: u8 = 0xCC;

/// The byte a resolved site holds after the toggle is applied in direction
/// `on`.
pub open spec fn target_byte(on: bool) -> u8 {
    if on {
        PATCHED_BYTE
    } else {
        ORIGINAL_BYTE
    }
}

/// The four-byte structural pattern starts at index `i` of `s`: the marker,
/// a byte whose high nibble matches, any byte, then the terminator immediate.
pub open spec fn is_match_at(s: Seq<u8>, i: int) -> bool {
    &&& 0 <= i
    &&& i + 3 < s.len()
    &&& s[i] == MARKER_BYTE
    &&& s[i + 1] & 0xF0 == MID_HIGH_NIBBLE
    &&& s[i + 3] == ORIGINAL_BYTE
}

/// Index `i` of a routine whose first byte sits at address `base` looks like
/// the routine's end: a return or trap opcode in the last byte of a 16-byte
/// slot. A best-effort heuristic tied to one compiler's padding convention;
/// the scanner pairs it with a hard length cap rather than trusting it alone.
pub open spec fn is_boundary_at(base: int, s: Seq<u8>, i: int) -> bool {
    &&& 0 <= i < s.len()
    &&& (base + i) % 16 == 15
    &&& (s[i] == RET_BYTE || s[i] == TRAP_BYTE)
}

/// The least index at or after `from` that looks like a routine boundary, or
/// `s.len()` if no index in `[from, s.len())` does.
pub open spec fn first_boundary_from(base: int, s: Seq<u8>, from: int) -> int
    decreases s.len() - from when 0 <= from <= s.len()
{
    if from >= s.len() {
        s.len() as int
    } else if is_boundary_at(base, s, from) {
        from
    } else {
        first_boundary_from(base, s, from + 1)
    }
}

/// The least boundary-looking index of the scanned bytes, or `s.len()`.
pub open spec fn first_boundary(base: int, s: Seq<u8>) -> int {
    first_boundary_from(base, s, 0)
}

/// A mutable site the full scan located, relative to one scanned routine.
#[derive(Clone, Copy, PartialEq, Eq, Structural, Debug)]
pub struct Site {
    /// The pattern's third byte; every located site must agree on it.
    pub mid: u8,
    /// Index of the terminator immediate — the byte the patch rewrites —
    /// relative to the start of the scanned routine.
    pub pos: usize,
}

/// The site recorded for a pattern match starting at index `i`.
pub open spec fn site_at(s: Seq<u8>, i: int) -> Site {
    Site { mid: s[i + 2], pos: (i + 3) as usize }
}

/// Every site whose pattern starts in `[from, end)`, in increasing order.
pub open spec fn sites_in(s: Seq<u8>, from: int, end: int) -> Seq<Site>
    decreases end - from when from <= end
{
    if from >= end {
        Seq::empty()
    } else if is_match_at(s, from) {
        seq![site_at(s, from)] + sites_in(s, from + 1, end)
    } else {
        sites_in(s, from + 1, end)
    }
}

/// The first boundary lies between the starting index and the length.
pub proof fn lemma_first_boundary_range(base: int, s: Seq<u8>, from: int)
    requires
        0 <= from <= s.len(),
    ensures
        from <= first_boundary_from(base, s, from) <= s.len(),
    decreases s.len() - from,
{
    if from < s.len() && !is_boundary_at(base, s, from) {
        lemma_first_boundary_range(base, s, from + 1);
    }
}

/// Skipping over a boundary-free prefix does not change which boundary is
/// found first.
pub proof fn lemma_first_boundary_skip(base: int, s: Seq<u8>, from: int, to: int)
    requires
        0 <= from <= to <= s.len(),
        forall|j: int| from <= j < to ==> !is_boundary_at(base, s, j),
    ensures
        first_boundary_from(base, s, from) == first_boundary_from(base, s, to),
    decreases to - from,
{
    if from < to {
        lemma_first_boundary_skip(base, s, from + 1, to);
    }
}

/// Extending the scanned range by one index appends at most one site.
pub proof fn lemma_sites_in_snoc(s: Seq<u8>, from: int, end: int)
    requires
        0 <= from <= end,
    ensures
        is_match_at(s, end) ==> sites_in(s, from, end + 1)
            == sites_in(s, from, end) + seq![site_at(s, end)],
        !is_match_at(s, end) ==> sites_in(s, from, end + 1) == sites_in(s, from, end),
    decreases end - from,
{
    if from >= end {
        assert(sites_in(s, from, end) == Seq::<Site>::empty());
        assert(sites_in(s, end + 1, end + 1) == Seq::<Site>::empty());
        if is_match_at(s, end) {
            assert(sites_in(s, end, end + 1) =~= sites_in(s, from, end) + seq![site_at(s, end)]);
        } else {
            assert(sites_in(s, end, end + 1) =~= sites_in(s, from, end));
        }
    } else {
        lemma_sites_in_snoc(s, from + 1, end);
        if is_match_at(s, from) {
            if is_match_at(s, end) {
                assert(sites_in(s, from, end + 1)
                    =~= sites_in(s, from, end) + seq![site_at(s, end)]);
            }
        }
    }
}

/// Every located site records an in-range terminator index that still holds
/// the original encoding, and its recorded middle byte.
pub proof fn lemma_sites_in_props(s: Seq<u8>, from: int, end: int)
    requires
        0 <= from <= end,
        s.len() <= usize::MAX,
    ensures
        forall|k: int| 0 <= k < sites_in(s, from, end).len()
            ==> (#[trigger] sites_in(s, from, end)[k]).pos < s.len()
                && from + 3 <= sites_in(s, from, end)[k].pos
                && s[sites_in(s, from, end)[k].pos as int] == ORIGINAL_BYTE,
    decreases end - from,
{
    if from < end {
        lemma_sites_in_props(s, from + 1, end);
        if is_match_at(s, from) {
            assert(sites_in(s, from, end) == seq![site_at(s, from)] + sites_in(s, from + 1, end));
            assert forall|k: int| 0 <= k < sites_in(s, from, end).len()
                implies (#[trigger] sites_in(s, from, end)[k]).pos < s.len()
                    && from + 3 <= sites_in(s, from, end)[k].pos
                    && s[sites_in(s, from, end)[k].pos as int] == ORIGINAL_BYTE by {
                if k == 0 {
                    assert(sites_in(s, from, end)[0] == site_at(s, from));
                } else {
                    assert(sites_in(s, from, end)[k] == sites_in(s, from + 1, end)[k - 1]);
                    assert(sites_in(s, from + 1, end)[k - 1].pos < s.len());
                }
            }
        } else {
            assert(sites_in(s, from, end) == sites_in(s, from + 1, end));
            assert forall|k: int| 0 <= k < sites_in(s, from, end).len()
                implies (#[trigger] sites_in(s, from, end)[k]).pos < s.len()
                    && from + 3 <= sites_in(s, from, end)[k].pos
                    && s[sites_in(s, from, end)[k].pos as int] == ORIGINAL_BYTE by {
                assert(sites_in(s, from, end)[k] == sites_in(s, from + 1, end)[k]);
                assert(sites_in(s, from + 1, end)[k].pos < s.len());
            }
        }
    }
}

} // verus!
