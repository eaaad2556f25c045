//! Patch applier: before anything is written, every resolved site must still
//! hold one of the two known encodings; only then are the replacement bytes
//! planned and written. A verification failure therefore always precedes the
//! first write, and memory is left exactly as it was found.

use vstd::prelude::*;

use crate::error::PatchError;
use crate::pattern;

verus! {

/// The byte at a resolved site is in a known state: still the original
/// flag-test immediate, or already the no-op immediate from an earlier
/// toggle. Anything else means the assumptions have gone stale and writing
/// would corrupt code.
pub open spec fn valid_site_byte(b: u8) -> bool {
    b == pattern::ORIGINAL_BYTE || b == pattern::PATCHED_BYTE
}

/// Decide the write for one resolved site, from the byte it currently holds.
pub fn plan_write(current: u8, on: bool) -> (r: Result<u8, PatchError>)
    ensures
        valid_site_byte(current) ==> r == Ok::<u8, PatchError>(pattern::target_byte(on)),
        !valid_site_byte(current) ==> r == Err::<u8, PatchError>(
            PatchError::UnexpectedState { found: current },
        ),
{
    if current == pattern::ORIGINAL_BYTE || current == pattern::PATCHED_BYTE {
        Ok(if on {
            pattern::PATCHED_BYTE
        } else {
            pattern::ORIGINAL_BYTE
        })
    } else {
        Err(PatchError::UnexpectedState { found: current })
    }
}

/// Decide the writes for every resolved site at once, from the bytes they
/// currently hold, in site order. Every byte is verified before any write is
/// planned: the first byte in no known state is the failure, and nothing is
/// to be written.
pub fn plan_writes(current: &Vec<u8>, on: bool) -> (r: Result<Vec<u8>, PatchError>)
    ensures
        match r {
            Ok(w) => {
                &&& forall|i: int| 0 <= i < current@.len()
                    ==> valid_site_byte(#[trigger] current@[i])
                &&& w@.len() == current@.len()
                &&& forall|i: int| 0 <= i < w@.len() ==> #[trigger] w@[i]
                    == pattern::target_byte(on)
            },
            Err(e) => exists|i: int| 0 <= i < current@.len()
                && !valid_site_byte(#[trigger] current@[i])
                && e == (PatchError::UnexpectedState { found: current@[i] })
                && forall|j: int| 0 <= j < i ==> valid_site_byte(#[trigger] current@[j]),
        },
{
    let n = current.len();
    let mut i: usize = 0;
    while i < n
        invariant
            i <= n,
            n == current@.len(),
            forall|j: int| 0 <= j < i ==> valid_site_byte(#[trigger] current@[j]),
        decreases n - i,
    {
        let b = current[i];
        if !(b == pattern::ORIGINAL_BYTE || b == pattern::PATCHED_BYTE) {
            return Err(PatchError::UnexpectedState { found: b });
        }
        i = i + 1;
    }
    let target = if on {
        pattern::PATCHED_BYTE
    } else {
        pattern::ORIGINAL_BYTE
    };
    let mut w: Vec<u8> = Vec::new();
    let mut i: usize = 0;
    while i < n
        invariant
            i <= n,
            n == current@.len(),
            target == pattern::target_byte(on),
            w@.len() == i,
            forall|j: int| 0 <= j < i ==> #[trigger] w@[j] == pattern::target_byte(on),
        decreases n - i,
    {
        w.push(target);
        i = i + 1;
    }
    Ok(w)
}

/// Index `i` is one of the resolved site positions.
pub open spec fn is_site(ps: Seq<usize>, i: int) -> bool {
    exists|k: int| 0 <= k < ps.len() && #[trigger] ps[k] == i
}

/// What a code region holds after the toggle is applied in direction `on`:
/// every resolved site holds the direction's byte, and every other position
/// is untouched.
pub open spec fn region_after(img: Seq<u8>, ps: Seq<usize>, on: bool) -> Seq<u8> {
    Seq::new(
        img.len(),
        |i: int|
            if is_site(ps, i) {
                pattern::target_byte(on)
            } else {
                img[i]
            },
    )
}

/// Apply the toggle to a code region held as bytes: verify the byte at every
/// site position, then write the direction's byte at each of them. On any
/// verification failure the region is returned untouched.
pub fn apply_to_region(image: &mut Vec<u8>, positions: &Vec<usize>, on: bool) -> (r: Result<
    (),
    PatchError,
>)
    requires
        forall|k: int| 0 <= k < positions@.len() ==> (#[trigger] positions@[k])
            < old(image)@.len(),
    ensures
        match r {
            Ok(()) => {
                &&& forall|k: int| 0 <= k < positions@.len()
                    ==> valid_site_byte(old(image)@[(#[trigger] positions@[k]) as int])
                &&& final(image)@ == region_after(old(image)@, positions@, on)
            },
            Err(e) => {
                &&& final(image)@ == old(image)@
                &&& exists|k: int| 0 <= k < positions@.len()
                    && !valid_site_byte(old(image)@[(#[trigger] positions@[k]) as int])
                    && e == (PatchError::UnexpectedState {
                        found: old(image)@[positions@[k] as int],
                    })
                    && forall|j: int| 0 <= j < k
                        ==> valid_site_byte(old(image)@[(#[trigger] positions@[j]) as int])
            },
        },
{
    let ghost img = image@;
    let n = positions.len();
    let mut k: usize = 0;
    while k < n
        invariant
            k <= n,
            n == positions@.len(),
            image@ == img,
            forall|q: int| 0 <= q < positions@.len() ==> (#[trigger] positions@[q]) < img.len(),
            forall|j: int| 0 <= j < k
                ==> valid_site_byte(img[(#[trigger] positions@[j]) as int]),
        decreases n - k,
    {
        let p = positions[k];
        let b = image[p];
        if !(b == pattern::ORIGINAL_BYTE || b == pattern::PATCHED_BYTE) {
            return Err(PatchError::UnexpectedState { found: b });
        }
        k = k + 1;
    }
    let target = if on {
        pattern::PATCHED_BYTE
    } else {
        pattern::ORIGINAL_BYTE
    };
    let mut k: usize = 0;
    while k < n
        invariant
            k <= n,
            n == positions@.len(),
            target == pattern::target_byte(on),
            image@.len() == img.len(),
            forall|q: int| 0 <= q < positions@.len() ==> (#[trigger] positions@[q]) < img.len(),
            forall|i: int| 0 <= i < img.len() ==> #[trigger] image@[i] == (
            if is_site(positions@.take(k as int), i) {
                pattern::target_byte(on)
            } else {
                img[i]
            }),
        decreases n - k,
    {
        let p = positions[k];
        image.set(p, target);
        proof {
            let ghost ps = positions@;
            assert forall|i: int| 0 <= i < img.len() implies #[trigger] image@[i] == (
            if is_site(ps.take(k as int + 1), i) {
                pattern::target_byte(on)
            } else {
                img[i]
            }) by {
                if i == p as int {
                    assert(ps.take(k as int + 1)[k as int] == p);
                    assert(is_site(ps.take(k as int + 1), i));
                } else {
                    if is_site(ps.take(k as int + 1), i) {
                        let q = choose|q: int| 0 <= q < ps.take(k as int + 1).len()
                            && #[trigger] ps.take(k as int + 1)[q] == i;
                        assert(ps.take(k as int)[q] == i);
                        assert(is_site(ps.take(k as int), i));
                    } else if is_site(ps.take(k as int), i) {
                        let q = choose|q: int| 0 <= q < ps.take(k as int).len()
                            && #[trigger] ps.take(k as int)[q] == i;
                        assert(ps.take(k as int + 1)[q] == i);
                    }
                }
            }
        }
        k = k + 1;
    }
    proof {
        assert(positions@.take(n as int) =~= positions@);
        assert(image@ =~= region_after(img, positions@, on));
    }
    Ok(())
}

/// The toggle is idempotent: after one application in direction `on`, every
/// site holds a known encoding, so a second application in the same
/// direction is accepted — and it changes no byte of the region.
pub proof fn lemma_toggle_idempotent(img: Seq<u8>, ps: Seq<usize>, on: bool)
    requires
        forall|k: int| 0 <= k < ps.len() ==> (#[trigger] ps[k]) < img.len(),
    ensures
        forall|k: int| 0 <= k < ps.len()
            ==> valid_site_byte(region_after(img, ps, on)[(#[trigger] ps[k]) as int]),
        region_after(region_after(img, ps, on), ps, on) == region_after(img, ps, on),
{
    assert forall|k: int| 0 <= k < ps.len()
        implies valid_site_byte(region_after(img, ps, on)[(#[trigger] ps[k]) as int]) by {
        assert(is_site(ps, ps[k] as int));
    }
    assert(region_after(region_after(img, ps, on), ps, on) =~= region_after(img, ps, on));
}

/// Round trip: toggling on and then off over a region whose sites still hold
/// the original encoding — as every freshly located site does — restores the
/// region byte for byte.
pub proof fn lemma_round_trip(img: Seq<u8>, ps: Seq<usize>)
    requires
        forall|k: int| 0 <= k < ps.len() ==> (#[trigger] ps[k]) < img.len(),
        forall|k: int| 0 <= k < ps.len() ==> img[(#[trigger] ps[k]) as int]
            == pattern::ORIGINAL_BYTE,
    ensures
        forall|k: int| 0 <= k < ps.len()
            ==> valid_site_byte(region_after(img, ps, true)[(#[trigger] ps[k]) as int]),
        region_after(region_after(img, ps, true), ps, false) == img,
{
    lemma_toggle_idempotent(img, ps, true);
    assert forall|i: int| 0 <= i < img.len() implies region_after(
        region_after(img, ps, true),
        ps,
        false,
    )[i] == img[i] by {
        if is_site(ps, i) {
            let k = choose|k: int| 0 <= k < ps.len() && #[trigger] ps[k] == i;
            assert(img[i] == pattern::ORIGINAL_BYTE);
        }
    }
    assert(region_after(region_after(img, ps, true), ps, false) =~= img);
}

/// Positions that are not resolved sites — the bytes of every structurally
/// different sibling routine among them — are untouched by the toggle, in
/// either direction.
pub proof fn lemma_untouched_outside_sites(img: Seq<u8>, ps: Seq<usize>, on: bool, i: int)
    requires
        0 <= i < img.len(),
        forall|k: int| 0 <= k < ps.len() ==> (#[trigger] ps[k]) != i,
    ensures
        region_after(img, ps, on)[i] == img[i],
{
    assert(!is_site(ps, i));
}

} // verus!
