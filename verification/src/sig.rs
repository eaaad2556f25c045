//! Signature table and fixed-offset resolver: when the mutable site sits at
//! a known offset from the routine's entry, each registered signature names
//! that offset and the two bytes expected there, one signature per observed
//! compiler build. Resolution is a first-match linear search over the table
//! in declaration order.

use vstd::prelude::*;

use crate::error::PatchError;

verus! {

/// First byte of the two-byte no-op encoding written over a fixed-offset
/// site while the patch is on.
pub const PAIR_PATCHED_0: u8 = 0x66;

/// Second byte of the two-byte no-op encoding.
pub const PAIR_PATCHED_1: u8 = 0x90;

/// One historically observed encoding of the mutable site: its offset from
/// the routine's entry and the two bytes expected there.
#[derive(Clone, Copy, PartialEq, Eq, Structural, Debug)]
pub struct Signature {
    pub offset: usize,
    pub b0: u8,
    pub b1: u8,
}

/// A resolved fixed-offset site: where to write, and the original pair to
/// verify against and to restore.
#[derive(Clone, Copy, PartialEq, Eq, Structural, Debug)]
pub struct FixedSite {
    pub offset: usize,
    pub orig0: u8,
    pub orig1: u8,
}

/// The scanned bytes match `sig`: the two bytes at its offset are the
/// signature's expected pair, or already the no-op pair left by an earlier
/// toggle in a previous resolution of the same process image.
pub open spec fn sig_matches(s: Seq<u8>, sig: Signature) -> bool {
    &&& sig.offset + 1 < s.len()
    &&& ((s[sig.offset as int] == sig.b0 && s[sig.offset + 1] == sig.b1) || (s[sig.offset as int]
        == PAIR_PATCHED_0 && s[sig.offset + 1] == PAIR_PATCHED_1))
}

/// The site a matching signature resolves to.
pub open spec fn site_of(sig: Signature) -> FixedSite {
    FixedSite { offset: sig.offset, orig0: sig.b0, orig1: sig.b1 }
}

/// Try each registered signature in declaration order against a snapshot of
/// the routine's leading bytes; the first whose offset holds either its
/// expected pair or the no-op pair wins. No match means the resident
/// binary's encoding is not one of the known shapes.
pub fn resolve_fixed(table: &Vec<Signature>, bytes: &Vec<u8>) -> (r: Result<
    FixedSite,
    PatchError,
>)
    ensures
        match r {
            Ok(site) => exists|k: int| 0 <= k < table@.len()
                && sig_matches(bytes@, #[trigger] table@[k])
                && site == site_of(table@[k])
                && forall|j: int| 0 <= j < k ==> !sig_matches(bytes@, #[trigger] table@[j]),
            Err(e) => {
                &&& e == PatchError::ShapeMismatch
                &&& forall|k: int| 0 <= k < table@.len()
                    ==> !sig_matches(bytes@, #[trigger] table@[k])
            },
        },
{
    let n = table.len();
    let len = bytes.len();
    let mut k: usize = 0;
    while k < n
        invariant
            k <= n,
            n == table@.len(),
            len == bytes@.len(),
            forall|j: int| 0 <= j < k ==> !sig_matches(bytes@, #[trigger] table@[j]),
        decreases n - k,
    {
        let sig = table[k];
        if len >= 2 && sig.offset < len - 1 {
            let c0 = bytes[sig.offset];
            let c1 = bytes[sig.offset + 1];
            if (c0 == sig.b0 && c1 == sig.b1) || (c0 == PAIR_PATCHED_0 && c1 == PAIR_PATCHED_1) {
                return Ok(FixedSite { offset: sig.offset, orig0: sig.b0, orig1: sig.b1 });
            }
        }
        k = k + 1;
    }
    Err(PatchError::ShapeMismatch)
}

/// The two bytes now at a fixed-offset site are in a known state.
pub open spec fn valid_pair(c0: u8, c1: u8, site: FixedSite) -> bool {
    (c0 == site.orig0 && c1 == site.orig1) || (c0 == PAIR_PATCHED_0 && c1 == PAIR_PATCHED_1)
}

/// The pair a fixed-offset site must hold after the toggle is applied in
/// direction `on`.
pub open spec fn target_pair(site: FixedSite, on: bool) -> (u8, u8) {
    if on {
        (PAIR_PATCHED_0, PAIR_PATCHED_1)
    } else {
        (site.orig0, site.orig1)
    }
}

/// Decide the write for a fixed-offset site, from the two bytes it currently
/// holds. A pair in no known state is refused, naming its first byte that
/// deviates from the original encoding.
pub fn plan_write_pair(c0: u8, c1: u8, site: &FixedSite, on: bool) -> (r: Result<
    (u8, u8),
    PatchError,
>)
    ensures
        valid_pair(c0, c1, *site) ==> r == Ok::<(u8, u8), PatchError>(target_pair(*site, on)),
        !valid_pair(c0, c1, *site) ==> r == Err::<(u8, u8), PatchError>(
            PatchError::UnexpectedState {
                found: if c0 != site.orig0 {
                    c0
                } else {
                    c1
                },
            },
        ),
{
    if (c0 == site.orig0 && c1 == site.orig1) || (c0 == PAIR_PATCHED_0 && c1 == PAIR_PATCHED_1) {
        if on {
            Ok((PAIR_PATCHED_0, PAIR_PATCHED_1))
        } else {
            Ok((site.orig0, site.orig1))
        }
    } else {
        Err(PatchError::UnexpectedState {
            found: if c0 != site.orig0 {
                c0
            } else {
                c1
            },
        })
    }
}

/// Idempotence at a fixed-offset site: the pair written by one application
/// is itself in a known state, so a second application in the same direction
/// is accepted and plans the same pair again.
pub proof fn lemma_pair_idempotent(site: FixedSite, on: bool)
    ensures
        valid_pair(target_pair(site, on).0, target_pair(site, on).1, site),
{
}

/// Round trip at a fixed-offset site: after toggling on, toggling off writes
/// back exactly the signature's original pair.
pub proof fn lemma_pair_round_trip(site: FixedSite)
    ensures
        valid_pair(target_pair(site, true).0, target_pair(site, true).1, site),
        target_pair(site, false) == (site.orig0, site.orig1),
{
}

} // verus!
