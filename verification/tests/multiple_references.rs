//! The exclusive-ownership checks on sketches and solids.

use fj_core::checks::{MultipleReferencesToObject, ValidationCheck};
use fj_core::geometry::Geometry;
use fj_core::storage::Store;
use fj_core::topology::{
    Curve, Cycle, Face, HalfEdge, Region, Shell, Sketch, Solid, Surface, Topology, Vertex,
};
use fj_core::update::UpdateSketch;
use fj_core::validation::ValidationConfig;

fn single_cycle_sketch(store: &mut Store) -> (Sketch, fj_core::storage::Handle<Cycle>) {
    let vertex = store.insert(Vertex::new());
    let curve = store.insert(Curve::new());
    let half_edge = store.insert(HalfEdge::new(vertex, curve));
    let cycle = store.insert(Cycle::new(vec![half_edge]));
    let region = store.insert(Region::new(cycle.clone(), vec![]));
    (Sketch::new(vec![region]), cycle)
}

#[test]
fn multiple_references_to_cycle() {
    let mut store = Store::new();
    let topology = Topology::new(&mut store);
    let geometry = Geometry::new(&topology);
    let config = ValidationConfig::default();

    let (valid, cycle) = single_cycle_sketch(&mut store);
    let found =
        MultipleReferencesToObject::<Cycle, Region>::check(&valid, &geometry, &config);
    assert!(found.is_empty());

    let second_region = store.insert(Region::new(cycle.clone(), vec![]));
    let invalid = valid.add_regions(vec![second_region.clone()]);
    let found =
        MultipleReferencesToObject::<Cycle, Region>::check(&invalid, &geometry, &config);
    assert_eq!(found.len(), 1);
    assert!(*found[0].object() == cycle);
    assert_eq!(found[0].referenced_by().len(), 2);
    assert!(found[0].referenced_by()[0] == invalid.regions()[0]);
    assert!(found[0].referenced_by()[1] == second_region);
}

#[test]
fn multiple_references_to_half_edge() {
    let mut store = Store::new();
    let topology = Topology::new(&mut store);
    let geometry = Geometry::new(&topology);
    let config = ValidationConfig::default();

    let mut half_edges = Vec::new();
    for _ in 0..3 {
        let vertex = store.insert(Vertex::new());
        let curve = store.insert(Curve::new());
        half_edges.push(store.insert(HalfEdge::new(vertex, curve)));
    }
    let exterior = store.insert(Cycle::new(half_edges.clone()));
    let region = store.insert(Region::new(exterior.clone(), vec![]));
    let valid = Sketch::new(vec![region.clone()]);
    let found =
        MultipleReferencesToObject::<HalfEdge, Cycle>::check(&valid, &geometry, &config);
    assert!(found.is_empty());

    let interior = store.insert(Cycle::new(half_edges.clone()));
    let updated_region = store.insert(Region::new(exterior.clone(), vec![interior]));
    let invalid = valid.update_region(&region, vec![updated_region]);
    let found =
        MultipleReferencesToObject::<HalfEdge, Cycle>::check(&invalid, &geometry, &config);
    assert!(!found.is_empty());
}

#[test]
fn multiple_references_to_region_in_solid() {
    let mut store = Store::new();
    let topology = Topology::new(&mut store);
    let geometry = Geometry::new(&topology);
    let config = ValidationConfig::default();

    let vertex = store.insert(Vertex::new());
    let curve = store.insert(Curve::new());
    let half_edge = store.insert(HalfEdge::new(vertex, curve));
    let cycle = store.insert(Cycle::new(vec![half_edge]));
    let region = store.insert(Region::new(cycle, vec![]));
    let surface_a = store.insert(Surface::new());
    let surface_b = store.insert(Surface::new());
    let face_a = store.insert(Face::new(surface_a, region.clone()));
    let face_b = store.insert(Face::new(surface_b, region.clone()));
    let shell = store.insert(Shell::new(vec![face_a.clone(), face_b.clone()]));
    let solid = Solid::new(vec![shell]);

    let found = MultipleReferencesToObject::<Region, Face>::check(&solid, &geometry, &config);
    assert_eq!(found.len(), 1);
    assert!(*found[0].object() == region);
    assert_eq!(found[0].referenced_by().len(), 2);
    assert!(found[0].referenced_by()[0] == face_a);
    assert!(found[0].referenced_by()[1] == face_b);
}

#[test]
fn shared_child_reported_once_with_all_parents() {
    let mut store = Store::new();
    let topology = Topology::new(&mut store);
    let geometry = Geometry::new(&topology);
    let config = ValidationConfig::default();

    let vertex = store.insert(Vertex::new());
    let curve = store.insert(Curve::new());
    let half_edge = store.insert(HalfEdge::new(vertex, curve));
    let cycle = store.insert(Cycle::new(vec![half_edge]));
    let mut regions = Vec::new();
    for _ in 0..5 {
        regions.push(store.insert(Region::new(cycle.clone(), vec![])));
    }
    let sketch = Sketch::new(regions.clone());
    let found = MultipleReferencesToObject::<Cycle, Region>::check(&sketch, &geometry, &config);
    assert_eq!(found.len(), 1);
    assert!(*found[0].object() == cycle);
    assert_eq!(found[0].referenced_by().len(), 5);
    for i in 0..5 {
        assert!(found[0].referenced_by()[i] == regions[i]);
    }
}
