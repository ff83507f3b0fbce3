//! The boundary-completeness and winding checks on faces.

use fj_core::checks::{FaceHasNoBoundary, InteriorCycleHasInvalidWinding, ValidationCheck};
use fj_core::geometry::{Geometry, LocalVertexGeom, Winding};
use fj_core::math::Point2;
use fj_core::storage::{Handle, Store};
use fj_core::topology::{Curve, Cycle, Face, HalfEdge, Region, Surface, Topology, Vertex};
use fj_core::validation::ValidationConfig;

struct Fixture {
    store: Store,
    geometry: Geometry,
    surface: Handle<Surface>,
}

fn fixture() -> Fixture {
    let mut store = Store::new();
    let topology = Topology::new(&mut store);
    let geometry = Geometry::new(&topology);
    let surface = store.insert(Surface::new());
    Fixture { store, geometry, surface }
}

/// A cycle through the given surface positions, with each vertex's
/// position recorded in the geometry.
fn cycle_at(fixture: &mut Fixture, corners: &[(i64, i64)]) -> Handle<Cycle> {
    let mut half_edges = Vec::new();
    for &(u, v) in corners {
        let vertex = fixture.store.insert(Vertex::new());
        let curve = fixture.store.insert(Curve::new());
        fixture.geometry.define_vertex_inner(
            vertex.clone(),
            fixture.surface.clone(),
            LocalVertexGeom::new(Point2::new(u, v)),
        );
        half_edges.push(fixture.store.insert(HalfEdge::new(vertex, curve)));
    }
    fixture.store.insert(Cycle::new(half_edges))
}

#[test]
fn face_with_empty_boundary_fails() {
    let mut fx = fixture();
    let exterior = fx.store.insert(Cycle::new(vec![]));
    let region = fx.store.insert(Region::new(exterior, vec![]));
    let face = Face::new(fx.surface.clone(), region);
    let config = ValidationConfig::default();

    let found = FaceHasNoBoundary::check(&face, &fx.geometry, &config);
    assert_eq!(found.len(), 1);
}

#[test]
fn face_with_boundary_passes() {
    let mut fx = fixture();
    let exterior = cycle_at(&mut fx, &[(0, 0), (10, 0), (10, 10), (0, 10)]);
    let region = fx.store.insert(Region::new(exterior, vec![]));
    let face = Face::new(fx.surface.clone(), region);
    let config = ValidationConfig::default();

    let found = FaceHasNoBoundary::check(&face, &fx.geometry, &config);
    assert!(found.is_empty());
}

#[test]
fn interior_cycle_with_same_winding_fails_and_flipped_passes() {
    let mut fx = fixture();
    let config = ValidationConfig::default();
    let exterior = cycle_at(&mut fx, &[(0, 0), (10, 0), (10, 10), (0, 10)]);

    let same_winding = cycle_at(&mut fx, &[(2, 2), (5, 2), (3, 5)]);
    let region = fx.store.insert(Region::new(exterior.clone(), vec![same_winding.clone()]));
    let face = Face::new(fx.surface.clone(), region);
    let found = InteriorCycleHasInvalidWinding::check(&face, &fx.geometry, &config);
    assert_eq!(found.len(), 1);
    assert!(found[0].interior_cycle == same_winding);
    assert!(matches!(found[0].exterior_winding, Winding::Ccw));
    assert!(matches!(found[0].interior_winding, Winding::Ccw));

    let flipped = cycle_at(&mut fx, &[(3, 5), (5, 2), (2, 2)]);
    let region = fx.store.insert(Region::new(exterior, vec![flipped]));
    let face = Face::new(fx.surface.clone(), region);
    let found = InteriorCycleHasInvalidWinding::check(&face, &fx.geometry, &config);
    assert!(found.is_empty());
}

#[test]
fn unresolved_interior_winding_is_no_finding() {
    let mut fx = fixture();
    let config = ValidationConfig::default();
    let exterior = cycle_at(&mut fx, &[(0, 0), (10, 0), (10, 10), (0, 10)]);

    // An interior cycle whose vertices have no position on this surface:
    // no constraint yet, so no finding.
    let vertex = fx.store.insert(Vertex::new());
    let curve = fx.store.insert(Curve::new());
    let half_edge = fx.store.insert(HalfEdge::new(vertex, curve));
    let unconstrained = fx.store.insert(Cycle::new(vec![half_edge]));
    let region = fx.store.insert(Region::new(exterior, vec![unconstrained]));
    let face = Face::new(fx.surface.clone(), region);
    let found = InteriorCycleHasInvalidWinding::check(&face, &fx.geometry, &config);
    assert!(found.is_empty());
}
