//! Storage cells and handles.

use fj_core::storage::{Storage, Store};
use fj_core::topology::{Cycle, HalfEdge, Vertex, Curve};
use fj_core::validation::ValidationError;
use fj_core::geometry::Geometry;
use fj_core::layer::Layer;
use fj_core::topology::{AnyObject, Region, Sketch, Topology};
use fj_core::validation::{ValidateObject, Validation, ValidationConfig};

#[test]
fn a_handle_resolves_to_the_stored_object() {
    let mut store = Store::new();
    let vertex = store.insert(Vertex::new());
    let curve = store.insert(Curve::new());
    let half_edge = store.insert(HalfEdge::new(vertex.clone(), curve));
    let cycle = store.insert(Cycle::new(vec![half_edge.clone()]));

    let read = cycle.get();
    assert_eq!(read.0.half_edges().len(), 1);
    assert!(read.0.half_edges()[0] == half_edge);
    assert!(*read.0.half_edges()[0].get().0.start_vertex() == vertex);
}

#[test]
fn storage_cells_carry_their_identity() {
    let cell = Storage::new(Vertex::new(), 7);
    assert_eq!(cell.ptr(), 7);
    let handle = cell.handle();
    assert_eq!(handle.id(), 7);
    let other = Storage::new(Vertex::new(), 8);
    assert!(handle != other.handle());
    assert!(handle == cell.handle());
}

#[test]
fn sketch_failure_is_recorded_once_per_object() {
    let mut store = Store::new();
    let topology = Topology::new(&mut store);
    let geometry = Geometry::new(&topology);
    let mut layer = Layer::new(Validation::new(ValidationConfig::default()));

    let vertex = store.insert(Vertex::new());
    let curve = store.insert(Curve::new());
    let half_edge = store.insert(HalfEdge::new(vertex, curve));
    let cycle = store.insert(Cycle::new(vec![half_edge]));
    let region_a = store.insert(Region::new(cycle.clone(), vec![]));
    let region_b = store.insert(Region::new(cycle.clone(), vec![]));
    let sketch = AnyObject::Sketch(store.insert(Sketch::new(vec![region_a, region_b])));

    let mut events = Vec::new();
    layer.process(ValidateObject { object: sketch, geometry: &geometry }, &mut events);
    // The shared cycle makes two findings: the cycle is referenced by two
    // regions, and its half-edge is visited through the cycle twice. Both
    // are recorded under the sketch's identity, so the later one stays.
    assert_eq!(events.len(), 2);
    match &events[0].err {
        ValidationError::MultipleReferencesToCycle(record) => {
            assert!(*record.object() == cycle);
            assert_eq!(record.referenced_by().len(), 2);
        },
        _ => panic!("the first finding must name the shared cycle"),
    }
    match layer.take_errors() {
        Ok(()) => panic!("a failure was recorded, so the drain must report it"),
        Err(errors) => {
            assert_eq!(errors.0.len(), 1);
            match &errors.0[0] {
                ValidationError::MultipleReferencesToHalfEdge(record) => {
                    assert_eq!(record.referenced_by().len(), 2);
                    assert!(record.referenced_by()[0] == cycle);
                    assert!(record.referenced_by()[1] == cycle);
                },
                _ => panic!("the later finding, for the half-edge, must stay"),
            }
        },
    }
}
