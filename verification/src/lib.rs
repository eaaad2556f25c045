//! Live code patcher: locates a known routine's mutable site inside an
//! already-loaded module by scanning its machine-code bytes for registered
//! signatures or a structural pattern, verifies the bytes are in a known
//! state, and computes the in-place byte rewrites that toggle one branch of
//! the routine's behavior on or off.
//!
//! This crate holds the verified core: the signature table and resolver, the
//! byte-pattern locators, the patch-state verification and write planning,
//! and the memoized resolution cache. The raw-memory reads and writes and the
//! page-protection changes that carry the plan out live with the embedding
//! program, which hands this crate byte snapshots and receives byte values to
//! write back.

use vstd::prelude::*;

pub mod cache;
pub mod error;
pub mod patch;
pub mod pattern;
pub mod scan;
pub mod sig;

verus! {

/// The byte a resolved site must hold once the toggle has been applied in
/// direction `on`: the no-op immediate while the patch is on, the original
/// flag-test immediate while it is off.
pub fn toggle_target(on: bool) -> (r: u8)
    ensures
        r == pattern::target_byte(on),
{
    if on {
        pattern::PATCHED_BYTE
    } else {
        pattern::ORIGINAL_BYTE
    }
}

} // verus!
