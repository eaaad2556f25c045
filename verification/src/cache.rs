//! Process-wide resolution cache: locating the sites is expensive and their
//! addresses are stable for the life of the process, so the resolution is
//! computed at most once and then retained. The embedding program holds one
//! `Patcher` behind its one-time-initialization primitive; this type
//! guarantees that a populated cache is never recomputed or replaced.

use vstd::prelude::*;

use crate::error::PatchError;
use crate::scan;
use crate::scan::ResolvedSite;
use crate::scan::Routine;

verus! {

/// The memoized resolution: empty until the first successful resolve, then
/// fixed for the value's lifetime.
pub struct Patcher {
    resolved: Option<Vec<ResolvedSite>>,
}

impl Patcher {
    /// The cached resolution, if one has been computed.
    pub closed spec fn cache(&self) -> Option<Seq<ResolvedSite>> {
        match self.resolved {
            Some(v) => Some(v@),
            None => None,
        }
    }

    /// A fresh, unresolved cache.
    pub fn new() -> (r: Patcher)
        ensures
            r.cache() is None,
    {
        Patcher { resolved: None }
    }

    /// Whether the resolution has been computed yet.
    pub fn is_resolved(&self) -> (r: bool)
        ensures
            r == (self.cache() is Some),
    {
        self.resolved.is_some()
    }

    /// Populate the cache from the routine snapshots, at most once.
    ///
    /// A populated cache is left exactly as it is — resolving again changes
    /// nothing, so the sites seen by later calls are identical to the sites
    /// seen by the first. On an empty cache the routines are scanned; a
    /// failure leaves the cache empty and reports why, so that a later call
    /// may try again with fresh snapshots.
    pub fn resolve_once(&mut self, routines: &Vec<Routine>) -> (r: Result<(), PatchError>)
        requires
            forall|k: int| 0 <= k < routines@.len()
                ==> (#[trigger] routines@[k]).base + routines@[k].bytes@.len() <= usize::MAX,
        ensures
            old(self).cache() is Some ==> r is Ok && final(self).cache() == old(self).cache(),
            old(self).cache() is None ==> match r {
                Ok(()) => {
                    &&& final(self).cache() == Some(scan::resolved_sites(routines@))
                    &&& forall|k: int| 0 <= k < routines@.len()
                        ==> scan::routine_ok(#[trigger] routines@[k])
                    &&& scan::consistent(scan::resolved_sites(routines@))
                },
                Err(e) => {
                    &&& final(self).cache() is None
                    &&& match e {
                        PatchError::MissingBoundary => exists|k: int| 0 <= k < routines@.len()
                            && scan::routine_unbounded(#[trigger] routines@[k]),
                        PatchError::ShapeMismatch => exists|k: int| 0 <= k < routines@.len()
                            && scan::routine_unmatched(#[trigger] routines@[k]),
                        PatchError::InconsistentSites { .. } => !scan::consistent(
                            scan::resolved_sites(routines@),
                        ),
                        _ => false,
                    }
                },
            },
    {
        if self.resolved.is_some() {
            return Ok(());
        }
        match scan::resolve(routines) {
            Ok(sites) => {
                self.resolved = Some(sites);
                Ok(())
            },
            Err(e) => Err(e),
        }
    }

    /// The resolved sites, once the cache is populated.
    pub fn sites(&self) -> (r: Option<&Vec<ResolvedSite>>)
        ensures
            match r {
                Some(v) => self.cache() == Some(v@),
                None => self.cache() is None,
            },
    {
        match &self.resolved {
            Some(v) => Some(v),
            None => None,
        }
    }
}

} // verus!
