//! Failure taxonomy. Every failure is final for the operation that raised
//! it: a mismatch discovered before any write means memory was left
//! untouched, and continuing past one would risk corrupting executable code.

use vstd::prelude::*;

verus! {

/// Why locating or applying the patch failed.
#[derive(Clone, Copy, PartialEq, Eq, Structural, Debug)]
pub enum PatchError {
    /// Scanned bytes match no registered signature and no structural
    /// pattern: the resident binary is not one of the known shapes.
    ShapeMismatch,
    /// The byte-by-byte scan reached its hard length cap without seeing a
    /// routine boundary, so the boundary heuristic cannot be trusted here.
    MissingBoundary,
    /// Sites located across related routines disagree on the shared
    /// structural byte: the located sites are inconsistent.
    InconsistentSites { expected: u8, found: u8 },
    /// The bytes now at a resolved site are neither the original nor the
    /// patched encoding: something else touched them since resolution.
    UnexpectedState { found: u8 },
    /// The memory-protection change over the bytes to be written failed.
    ProtectionFailure,
}

impl PatchError {
    /// A short description, for the embedding program's diagnostics.
    pub fn describe(&self) -> &'static str {
        match self {
            PatchError::ShapeMismatch => "no registered signature matches the scanned bytes",
            PatchError::MissingBoundary => "no routine boundary within the scan length cap",
            PatchError::InconsistentSites { .. } => "located sites disagree on the shared byte",
            PatchError::UnexpectedState { .. } => "bytes at a resolved site are in no known state",
            PatchError::ProtectionFailure => "could not change memory protection",
        }
    }
}

/// The ASCII code of the lowercase hex digit for a value below 16.
pub open spec fn hex_ascii(n: u8) -> u8
    recommends
        n < 16,
{
    if n < 10 {
        (0x30 + n) as u8
    } else {
        (0x57 + n) as u8
    }
}

/// Render bytes as lowercase hex, two digits and a space per byte: the
/// diagnostic dump surfaced beside a `ShapeMismatch`, for diagnosing a new
/// binary shape from the scanned region. The result is ASCII.
pub fn hex_dump(bytes: &Vec<u8>) -> (r: Vec<u8>)
    ensures
        r@.len() == 3 * bytes@.len(),
        forall|j: int| 0 <= j < bytes@.len() ==> {
            &&& r@[3 * j] == hex_ascii((#[trigger] bytes@[j]) >> 4)
            &&& r@[3 * j + 1] == hex_ascii(bytes@[j] & 0x0F)
            &&& r@[3 * j + 2] == 0x20u8
        },
{
    let n = bytes.len();
    let mut r: Vec<u8> = Vec::new();
    let mut i: usize = 0;
    while i < n
        invariant
            i <= n,
            n == bytes@.len(),
            r@.len() == 3 * i,
            forall|j: int| 0 <= j < i ==> {
                &&& r@[3 * j] == hex_ascii((#[trigger] bytes@[j]) >> 4)
                &&& r@[3 * j + 1] == hex_ascii(bytes@[j] & 0x0F)
                &&& r@[3 * j + 2] == 0x20u8
            },
        decreases n - i,
    {
        let b = bytes[i];
        let hi = b >> 4;
        let lo = b & 0x0F;
        proof {
            assert(b >> 4 < 16 && b & 0x0F < 16) by (bit_vector);
        }
        r.push(if hi < 10 {
            0x30 + hi
        } else {
            0x57 + hi
        });
        r.push(if lo < 10 {
            0x30 + lo
        } else {
            0x57 + lo
        });
        r.push(0x20);
        i = i + 1;
    }
    r
}

} // verus!
