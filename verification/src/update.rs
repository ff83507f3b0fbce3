//! Construction and update operations.
//!
//! Updating topology never edits an object in place: an update builds a
//! new object from the old one's handles plus whatever changed, and the
//! host stores it anew. Previously issued handles and the objects they
//! reference are unaffected.

use crate::checks::clone_handles;
use crate::storage::Handle;
use crate::topology::{Region, Sketch};
use vstd::prelude::*;

verus! {

/// Update a sketch, yielding a new sketch.
pub trait UpdateSketch: Sized {
    /// The regions of the sketch being updated.
    spec fn update_regions_spec(&self) -> Seq<Handle<Region>>;

    /// Add regions to the sketch.
    fn add_regions(&self, regions: Vec<Handle<Region>>) -> (r: Self)
        ensures
            r.update_regions_spec() == self.update_regions_spec() + regions@,
    ;

    /// Update a region of the sketch: replace the first region that is
    /// the given handle by the given replacements, keeping every other
    /// region. A handle that no region of the sketch is would be host
    /// misuse, excluded by contract.
    fn update_region(&self, handle: &Handle<Region>, replacements: Vec<Handle<Region>>) -> (r:
        Self)
        requires
            exists|i: int|
                0 <= i < self.update_regions_spec().len() && (
                #[trigger] self.update_regions_spec()[i]).same_cell(handle),
        ensures
            exists|i: int|
                {
                    &&& 0 <= i < self.update_regions_spec().len()
                    &&& (#[trigger] self.update_regions_spec()[i]).same_cell(handle)
                    &&& forall|j: int|
                        0 <= j < i ==> !(#[trigger] self.update_regions_spec()[j]).same_cell(
                            handle,
                        )
                    &&& r.update_regions_spec() == self.update_regions_spec().subrange(0, i)
                        + replacements@ + self.update_regions_spec().subrange(
                        i + 1,
                        self.update_regions_spec().len() as int,
                    )
                },
    ;
}

impl UpdateSketch for Sketch {
    /// The sketch's regions.
    open spec fn update_regions_spec(&self) -> Seq<Handle<Region>> {
        self.regions_spec()
    }

    fn add_regions(&self, regions: Vec<Handle<Region>>) -> (r: Sketch) {
        let mut combined = clone_handles(self.regions());
        let n = regions.len();
        let mut i: usize = 0;
        while i < n
            invariant
                n == regions@.len(),
                i <= n,
                combined@ == self.regions_spec() + regions@.take(i as int),
            decreases n - i,
        {
            combined.push(regions[i].clone());
            proof {
                assert(self.regions_spec() + regions@.take(i + 1 as int) =~= (self.regions_spec()
                    + regions@.take(i as int)).push(regions@[i as int]));
            }
            i = i + 1;
        }
        proof {
            assert(regions@.take(n as int) =~= regions@);
            assert(combined@ =~= self.regions_spec() + regions@);
        }
        Sketch::new(combined)
    }

    fn update_region(&self, handle: &Handle<Region>, replacements: Vec<Handle<Region>>) -> (r:
        Sketch) {
        let regions = self.regions();
        let n = regions.len();
        let mut out: Vec<Handle<Region>> = Vec::new();
        let mut i: usize = 0;
        while i < n
            invariant
                n == self.regions_spec().len(),
                regions@ == self.regions_spec(),
                i <= n,
                out@ == self.regions_spec().take(i as int),
                forall|j: int| 0 <= j < i ==> !(#[trigger] self.regions_spec()[j]).same_cell(
                    handle,
                ),
                exists|j: int|
                    0 <= j < self.regions_spec().len() && (
                    #[trigger] self.regions_spec()[j]).same_cell(handle),
            decreases n - i,
        {
            if regions[i].id() == handle.id() {
                let ghost found_at = i as int;
                let m = replacements.len();
                let mut k: usize = 0;
                while k < m
                    invariant
                        m == replacements@.len(),
                        k <= m,
                        found_at == i,
                        0 <= found_at < self.regions_spec().len(),
                        out@ == self.regions_spec().take(found_at) + replacements@.take(k as int),
                    decreases m - k,
                {
                    out.push(replacements[k].clone());
                    proof {
                        assert(self.regions_spec().take(found_at) + replacements@.take(
                            k + 1 as int,
                        ) =~= (self.regions_spec().take(found_at) + replacements@.take(
                            k as int,
                        )).push(replacements@[k as int]));
                    }
                    k = k + 1;
                }
                let mut t: usize = i + 1;
                while t < n
                    invariant
                        n == self.regions_spec().len(),
                        regions@ == self.regions_spec(),
                        found_at + 1 <= t <= n,
                        0 <= found_at < self.regions_spec().len(),
                        m == replacements@.len(),
                        out@ == self.regions_spec().take(found_at) + replacements@
                            + self.regions_spec().subrange(found_at + 1, t as int),
                    decreases n - t,
                {
                    out.push(regions[t].clone());
                    proof {
                        assert(self.regions_spec().take(found_at) + replacements@
                            + self.regions_spec().subrange(found_at + 1, t + 1 as int) =~= (
                        self.regions_spec().take(found_at) + replacements@
                            + self.regions_spec().subrange(found_at + 1, t as int)).push(
                            self.regions_spec()[t as int],
                        ));
                    }
                    t = t + 1;
                }
                proof {
                    assert(replacements@.take(m as int) =~= replacements@);
                    assert(self.regions_spec().take(found_at) == self.regions_spec().subrange(
                        0,
                        found_at,
                    ));
                    assert(self.update_regions_spec() == self.regions_spec());
                    assert((#[trigger] self.update_regions_spec()[found_at]).same_cell(handle));
                    assert(forall|j: int|
                        0 <= j < found_at ==> !(#[trigger] self.update_regions_spec()[j]).same_cell(
                            handle,
                        ));
                    assert(out@ == self.update_regions_spec().subrange(0, found_at) + replacements@
                        + self.update_regions_spec().subrange(
                        found_at + 1,
                        self.update_regions_spec().len() as int,
                    ));
                }
                return Sketch::new(out);
            }
            out.push(regions[i].clone());
            proof {
                assert(self.regions_spec().take(i + 1 as int) =~= self.regions_spec().take(
                    i as int,
                ).push(self.regions_spec()[i as int]));
            }
            i = i + 1;
        }
        proof {
            let j = choose|j: int|
                0 <= j < self.regions_spec().len() && (
                #[trigger] self.regions_spec()[j]).same_cell(handle);
            assert(false);
        }
        Sketch::new(out)
    }
}

} // verus!
