//! Per-object-kind validation dispatch.
//!
//! Every validatable object kind runs all checks applicable to it and
//! appends one structured error per finding. The command layer invokes
//! this through [`AnyObject`], which routes a request to the routine for
//! the object's concrete kind.

use crate::checks::{
    cycle_edges_of_regions, face_has_no_boundary, faces_of_shells, half_edge_edges_of_regions,
    multi_ref_found, region_face_edges, regions_of_faces, tally, violations, winding_errors,
    FaceHasNoBoundary, InteriorCycleHasInvalidWinding, MultipleReferencesToObject,
    ValidationCheck,
};
use crate::geometry::Geometry;
use crate::topology::{AnyObject, Cycle, Face, HalfEdge, Region, Sketch, Solid};
use crate::validation::{ValidationConfig, ValidationError};
use vstd::prelude::*;

verus! {

/// An object that can be validated: it runs all checks applicable to its
/// kind and appends one error per finding.
pub trait Validate {
    /// What the appended errors say of the object.
    spec fn validate_rel(&self, geometry: &Geometry, found: Seq<ValidationError>) -> bool;

    /// Validate the object against the configuration and the geometry
    /// lookup, appending its findings in check order.
    fn validate(
        &self,
        config: &ValidationConfig,
        errors: &mut Vec<ValidationError>,
        geometry: &Geometry,
    )
        ensures
            final(errors)@.len() >= old(errors)@.len(),
            final(errors)@.take(old(errors)@.len() as int) == old(errors)@,
            self.validate_rel(geometry, final(errors)@.skip(old(errors)@.len() as int)),
    ;
}

/// The errors validating a face yields: its empty-boundary finding, then
/// its winding findings, each wrapped as a [`ValidationError`].
pub open spec fn face_validation_errors(geometry: &Geometry, face: &Face) -> Seq<
    ValidationError,
> {
    (if face_has_no_boundary(face) {
        seq![ValidationError::FaceHasNoBoundary(FaceHasNoBoundary {  })]
    } else {
        Seq::<ValidationError>::empty()
    }) + winding_errors(geometry, face).map_values(
        |e: InteriorCycleHasInvalidWinding| ValidationError::InteriorCycleHasInvalidWinding(e),
    )
}

impl Validate for Face {
    /// Exactly the boundary-completeness and interior-winding findings of
    /// the face, in that order.
    open spec fn validate_rel(&self, geometry: &Geometry, found: Seq<ValidationError>) -> bool {
        found == face_validation_errors(geometry, self)
    }

    fn validate(
        &self,
        config: &ValidationConfig,
        errors: &mut Vec<ValidationError>,
        geometry: &Geometry,
    ) {
        let ghost prefix = errors@;
        let boundary = FaceHasNoBoundary::check(self, geometry, config);
        let winding = InteriorCycleHasInvalidWinding::check(self, geometry, config);
        let mut i: usize = 0;
        while i < boundary.len()
            invariant
                i <= boundary@.len(),
                boundary@ == (if face_has_no_boundary(self) {
                    seq![FaceHasNoBoundary {  }]
                } else {
                    Seq::<FaceHasNoBoundary>::empty()
                }),
                errors@.len() == prefix.len() + i,
                errors@.take(prefix.len() as int) == prefix,
                forall|j: int|
                    0 <= j < i ==> errors@[prefix.len() + j] == ValidationError::FaceHasNoBoundary(
                        boundary@[j],
                    ),
            decreases boundary@.len() - i,
        {
            let finding = boundary[i];
            errors.push(ValidationError::FaceHasNoBoundary(finding));
            proof {
                assert(errors@.take(prefix.len() as int) =~= prefix);
            }
            i = i + 1;
        }
        let ghost mid = errors@;
        proof {
            assert(mid.len() == prefix.len() + boundary@.len());
            assert(mid.take(prefix.len() as int) == prefix);
            assert(forall|j: int|
                0 <= j < boundary@.len() ==> mid[prefix.len() + j]
                    == ValidationError::FaceHasNoBoundary(boundary@[j]));
        }
        let n = winding.len();
        let mut k: usize = 0;
        while k < n
            invariant
                n == winding@.len(),
                k <= n,
                winding@ == winding_errors(geometry, self),
                errors@.len() == mid.len() + k,
                errors@.take(mid.len() as int) == mid,
                forall|j: int|
                    0 <= j < k ==> errors@[mid.len() + j]
                        == ValidationError::InteriorCycleHasInvalidWinding(winding@[j]),
            decreases n - k,
        {
            let finding = winding[k].clone();
            errors.push(ValidationError::InteriorCycleHasInvalidWinding(finding));
            proof {
                assert(errors@.take(mid.len() as int) =~= mid);
            }
            k = k + 1;
        }
        proof {
            assert(errors@.take(prefix.len() as int) =~= prefix);
            let found = errors@.skip(prefix.len() as int);
            let spec_errs = face_validation_errors(geometry, self);
            assert(found.len() == spec_errs.len());
            assert forall|x: int| 0 <= x < found.len() implies found[x] == spec_errs[x] by {
                if x < boundary@.len() {
                    assert(found[x] == errors@[prefix.len() + x]);
                    assert(errors@.take(mid.len() as int)[prefix.len() + x] == mid[prefix.len()
                        + x]);
                    assert(found[x] == ValidationError::FaceHasNoBoundary(boundary@[x]));
                } else {
                    let j = x - boundary@.len();
                    assert(found[x] == errors@[mid.len() + j]);
                    assert(found[x] == ValidationError::InteriorCycleHasInvalidWinding(
                        winding@[j],
                    ));
                    assert(spec_errs[x] == ValidationError::InteriorCycleHasInvalidWinding(
                        winding_errors(geometry, self)[j],
                    ));
                }
            }
            assert(found =~= spec_errs);
        }
    }
}

/// What a segment of wrapped violation records says: one error per
/// violation, of the given shape, naming the violation's child and its
/// complete parent list.
pub open spec fn cycle_segment(
    found: Seq<ValidationError>,
    start: int,
    viol: Seq<(crate::storage::Handle<Cycle>, Seq<crate::storage::Handle<Region>>)>,
) -> bool {
    forall|j: int|
        0 <= j < viol.len() ==> ((#[trigger] found[start + j]) matches
            ValidationError::MultipleReferencesToCycle(rec) && rec.object_spec() == viol[j].0
            && rec.referenced_by_spec() == viol[j].1)
}

/// As [`cycle_segment`], for half-edges referenced by several cycles.
pub open spec fn half_edge_segment(
    found: Seq<ValidationError>,
    start: int,
    viol: Seq<(crate::storage::Handle<HalfEdge>, Seq<crate::storage::Handle<Cycle>>)>,
) -> bool {
    forall|j: int|
        0 <= j < viol.len() ==> ((#[trigger] found[start + j]) matches
            ValidationError::MultipleReferencesToHalfEdge(rec) && rec.object_spec() == viol[j].0
            && rec.referenced_by_spec() == viol[j].1)
}

/// As [`cycle_segment`], for regions referenced by several faces.
pub open spec fn region_segment(
    found: Seq<ValidationError>,
    start: int,
    viol: Seq<(crate::storage::Handle<Region>, Seq<crate::storage::Handle<Face>>)>,
) -> bool {
    forall|j: int|
        0 <= j < viol.len() ==> ((#[trigger] found[start + j]) matches
            ValidationError::MultipleReferencesToRegion(rec) && rec.object_spec() == viol[j].0
            && rec.referenced_by_spec() == viol[j].1)
}

impl Validate for Sketch {
    /// Exactly the sketch's exclusive-ownership findings: first every
    /// cycle that several regions reference, then every half-edge that
    /// several cycles reference.
    open spec fn validate_rel(&self, geometry: &Geometry, found: Seq<ValidationError>) -> bool {
        let v1 = violations(tally(cycle_edges_of_regions(self.regions_spec())));
        let v2 = violations(tally(half_edge_edges_of_regions(self.regions_spec())));
        &&& found.len() == v1.len() + v2.len()
        &&& cycle_segment(found, 0, v1)
        &&& half_edge_segment(found, v1.len() as int, v2)
    }

    fn validate(
        &self,
        config: &ValidationConfig,
        errors: &mut Vec<ValidationError>,
        geometry: &Geometry,
    ) {
        let ghost prefix = errors@;
        let found1 = MultipleReferencesToObject::<Cycle, Region>::check(self, geometry, config);
        let found2 = MultipleReferencesToObject::<HalfEdge, Cycle>::check(self, geometry, config);
        let ghost v1 = violations(tally(cycle_edges_of_regions(self.regions_spec())));
        let ghost v2 = violations(tally(half_edge_edges_of_regions(self.regions_spec())));
        let mut i: usize = 0;
        while i < found1.len()
            invariant
                i <= found1@.len(),
                multi_ref_found(found1@, v1),
                errors@.len() == prefix.len() + i,
                errors@.take(prefix.len() as int) == prefix,
                forall|j: int|
                    0 <= j < i ==> errors@[prefix.len() + j]
                        == ValidationError::MultipleReferencesToCycle(found1@[j]),
            decreases found1@.len() - i,
        {
            errors.push(ValidationError::MultipleReferencesToCycle(found1[i].clone()));
            proof {
                assert(errors@.take(prefix.len() as int) =~= prefix);
            }
            i = i + 1;
        }
        let mut k: usize = 0;
        while k < found2.len()
            invariant
                k <= found2@.len(),
                multi_ref_found(found2@, v2),
                errors@.len() == prefix.len() + found1@.len() + k,
                errors@.take(prefix.len() as int) == prefix,
                forall|j: int|
                    0 <= j < found1@.len() ==> errors@[prefix.len() + j]
                        == ValidationError::MultipleReferencesToCycle(found1@[j]),
                forall|j: int|
                    0 <= j < k ==> errors@[prefix.len() + found1@.len() + j]
                        == ValidationError::MultipleReferencesToHalfEdge(found2@[j]),
            decreases found2@.len() - k,
        {
            errors.push(ValidationError::MultipleReferencesToHalfEdge(found2[k].clone()));
            proof {
                assert(errors@.take(prefix.len() as int) =~= prefix);
            }
            k = k + 1;
        }
        proof {
            let found = errors@.skip(prefix.len() as int);
            assert(found.len() == v1.len() + v2.len());
            assert forall|j: int| 0 <= j < v1.len() implies ((#[trigger] found[j]) matches
                ValidationError::MultipleReferencesToCycle(rec) && rec.object_spec() == v1[j].0
                && rec.referenced_by_spec() == v1[j].1) by {
                assert(found[j] == errors@[prefix.len() + j]);
                assert(found[j] == ValidationError::MultipleReferencesToCycle(found1@[j]));
            }
            assert forall|j: int| 0 <= j < v2.len() implies ((#[trigger] found[v1.len() + j])
                matches ValidationError::MultipleReferencesToHalfEdge(rec) && rec.object_spec()
                == v2[j].0 && rec.referenced_by_spec() == v2[j].1) by {
                assert(found[v1.len() + j] == errors@[prefix.len() + found1@.len() + j]);
                assert(found[v1.len() + j] == ValidationError::MultipleReferencesToHalfEdge(
                    found2@[j],
                ));
            }
        }
    }
}

impl Validate for Solid {
    /// Exactly the solid's exclusive-ownership findings: every region
    /// referenced by several faces, then every cycle referenced by several
    /// regions, then every half-edge referenced by several cycles.
    open spec fn validate_rel(&self, geometry: &Geometry, found: Seq<ValidationError>) -> bool {
        let faces = faces_of_shells(self.shells_spec());
        let v1 = violations(tally(region_face_edges(faces)));
        let v2 = violations(tally(cycle_edges_of_regions(regions_of_faces(faces))));
        let v3 = violations(tally(half_edge_edges_of_regions(regions_of_faces(faces))));
        &&& found.len() == v1.len() + v2.len() + v3.len()
        &&& region_segment(found, 0, v1)
        &&& cycle_segment(found, v1.len() as int, v2)
        &&& half_edge_segment(found, v1.len() + v2.len() as int, v3)
    }

    fn validate(
        &self,
        config: &ValidationConfig,
        errors: &mut Vec<ValidationError>,
        geometry: &Geometry,
    ) {
        let ghost prefix = errors@;
        let found1 = MultipleReferencesToObject::<Region, Face>::check(self, geometry, config);
        let found2 = MultipleReferencesToObject::<Cycle, Region>::check(self, geometry, config);
        let found3 = MultipleReferencesToObject::<HalfEdge, Cycle>::check(self, geometry, config);
        let ghost faces = faces_of_shells(self.shells_spec());
        let ghost v1 = violations(tally(region_face_edges(faces)));
        let ghost v2 = violations(tally(cycle_edges_of_regions(regions_of_faces(faces))));
        let ghost v3 = violations(tally(half_edge_edges_of_regions(regions_of_faces(faces))));
        let mut i: usize = 0;
        while i < found1.len()
            invariant
                i <= found1@.len(),
                multi_ref_found(found1@, v1),
                errors@.len() == prefix.len() + i,
                errors@.take(prefix.len() as int) == prefix,
                forall|j: int|
                    0 <= j < i ==> errors@[prefix.len() + j]
                        == ValidationError::MultipleReferencesToRegion(found1@[j]),
            decreases found1@.len() - i,
        {
            errors.push(ValidationError::MultipleReferencesToRegion(found1[i].clone()));
            proof {
                assert(errors@.take(prefix.len() as int) =~= prefix);
            }
            i = i + 1;
        }
        let mut k: usize = 0;
        while k < found2.len()
            invariant
                k <= found2@.len(),
                multi_ref_found(found2@, v2),
                errors@.len() == prefix.len() + found1@.len() + k,
                errors@.take(prefix.len() as int) == prefix,
                forall|j: int|
                    0 <= j < found1@.len() ==> errors@[prefix.len() + j]
                        == ValidationError::MultipleReferencesToRegion(found1@[j]),
                forall|j: int|
                    0 <= j < k ==> errors@[prefix.len() + found1@.len() + j]
                        == ValidationError::MultipleReferencesToCycle(found2@[j]),
            decreases found2@.len() - k,
        {
            errors.push(ValidationError::MultipleReferencesToCycle(found2[k].clone()));
            proof {
                assert(errors@.take(prefix.len() as int) =~= prefix);
            }
            k = k + 1;
        }
        let mut m: usize = 0;
        while m < found3.len()
            invariant
                m <= found3@.len(),
                multi_ref_found(found3@, v3),
                errors@.len() == prefix.len() + found1@.len() + found2@.len() + m,
                errors@.take(prefix.len() as int) == prefix,
                forall|j: int|
                    0 <= j < found1@.len() ==> errors@[prefix.len() + j]
                        == ValidationError::MultipleReferencesToRegion(found1@[j]),
                forall|j: int|
                    0 <= j < found2@.len() ==> errors@[prefix.len() + found1@.len() + j]
                        == ValidationError::MultipleReferencesToCycle(found2@[j]),
                forall|j: int|
                    0 <= j < m ==> errors@[prefix.len() + found1@.len() + found2@.len() + j]
                        == ValidationError::MultipleReferencesToHalfEdge(found3@[j]),
            decreases found3@.len() - m,
        {
            errors.push(ValidationError::MultipleReferencesToHalfEdge(found3[m].clone()));
            proof {
                assert(errors@.take(prefix.len() as int) =~= prefix);
            }
            m = m + 1;
        }
        proof {
            let found = errors@.skip(prefix.len() as int);
            assert(found.len() == v1.len() + v2.len() + v3.len());
            assert forall|j: int| 0 <= j < v1.len() implies ((#[trigger] found[j]) matches
                ValidationError::MultipleReferencesToRegion(rec) && rec.object_spec() == v1[j].0
                && rec.referenced_by_spec() == v1[j].1) by {
                assert(found[j] == errors@[prefix.len() + j]);
                assert(found[j] == ValidationError::MultipleReferencesToRegion(found1@[j]));
                assert(found1@[j].object_spec() == v1[j].0 && found1@[j].referenced_by_spec()
                    == v1[j].1);
            }
            assert forall|j: int| 0 <= j < v2.len() implies ((#[trigger] found[v1.len() + j])
                matches ValidationError::MultipleReferencesToCycle(rec) && rec.object_spec()
                == v2[j].0 && rec.referenced_by_spec() == v2[j].1) by {
                assert(found[v1.len() + j] == errors@[prefix.len() + found1@.len() + j]);
                assert(found[v1.len() + j] == ValidationError::MultipleReferencesToCycle(
                    found2@[j],
                ));
                assert(found2@[j].object_spec() == v2[j].0 && found2@[j].referenced_by_spec()
                    == v2[j].1);
            }
            assert forall|j: int| 0 <= j < v3.len() implies ((#[trigger] found[v1.len() + v2.len()
                + j]) matches ValidationError::MultipleReferencesToHalfEdge(rec)
                && rec.object_spec() == v3[j].0 && rec.referenced_by_spec() == v3[j].1) by {
                assert(found[v1.len() + v2.len() + j] == errors@[prefix.len() + found1@.len()
                    + found2@.len() + j]);
                assert(found[v1.len() + v2.len() + j]
                    == ValidationError::MultipleReferencesToHalfEdge(found3@[j]));
                assert(found3@[j].object_spec() == v3[j].0 && found3@[j].referenced_by_spec()
                    == v3[j].1);
            }
        }
    }
}

/// What validating any stored object appends, by the object's kind.
pub open spec fn object_validate_rel(
    object: &AnyObject,
    geometry: &Geometry,
    found: Seq<ValidationError>,
) -> bool {
    match object {
        AnyObject::Face(h) => h.value_spec().validate_rel(geometry, found),
        AnyObject::Sketch(h) => h.value_spec().validate_rel(geometry, found),
        AnyObject::Solid(h) => h.value_spec().validate_rel(geometry, found),
    }
}

impl AnyObject {
    /// Route a validation request to the routine for the object's
    /// concrete kind.
    pub fn validate(
        &self,
        config: &ValidationConfig,
        errors: &mut Vec<ValidationError>,
        geometry: &Geometry,
    )
        ensures
            final(errors)@.len() >= old(errors)@.len(),
            final(errors)@.take(old(errors)@.len() as int) == old(errors)@,
            object_validate_rel(self, geometry, final(errors)@.skip(old(errors)@.len() as int)),
    {
        match self {
            AnyObject::Face(h) => {
                let object_ref = h.get();
                object_ref.0.validate(config, errors, geometry);
            },
            AnyObject::Sketch(h) => {
                let object_ref = h.get();
                object_ref.0.validate(config, errors, geometry);
            },
            AnyObject::Solid(h) => {
                let object_ref = h.get();
                object_ref.0.validate(config, errors, geometry);
            },
        }
    }
}

} // verus!
