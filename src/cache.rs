use vstd::prelude::*;
use crate::display::{is_edge_update, EdgeDisplay, EdgeUpdate};

verus! {

/// Remembers, for one edge on screen, the inputs it was last drawn from and
/// the handle of the material that draws it, so that the edge is rebuilt only
/// when an input changes.
#[derive(Clone, Copy, Debug)]
pub struct EdgeCache {
    /// Handle of the material allocated for this edge; it never changes.
    pub material: u64,
    /// The inputs of the last build, if any.
    pub last: Option<EdgeDisplay>,
}

impl EdgeCache {
    /// A cache for an edge drawn by `material` that has not been built yet.
    pub fn new(material: u64) -> (r: EdgeCache)
        ensures
            r.material == material,
            r.last == None::<EdgeDisplay>,
    {
        EdgeCache { material, last: None }
    }

    /// Rebuilds the edge when `e` differs from the inputs of the last build,
    /// and remembers `e`; returns `None` when nothing changed.
    pub fn refresh(&mut self, e: EdgeDisplay) -> (r: Option<EdgeUpdate>)
        ensures
            final(self).material == old(self).material,
            final(self).last == Some(e),
            old(self).last == Some(e) ==> r is None,
            old(self).last != Some(e) ==> r is Some && is_edge_update(e, r->Some_0),
    {
        let unchanged = match self.last {
            Some(prev) => prev == e,
            None => false,
        };
        self.last = Some(e);
        if unchanged {
            None
        } else {
            Some(e.build())
        }
    }
}

} // verus!
