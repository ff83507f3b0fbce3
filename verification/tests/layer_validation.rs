//! The validation layer: identity, event processing and draining.

use fj_core::geometry::Geometry;
use fj_core::layer::Layer;
use fj_core::storage::Store;
use fj_core::topology::{AnyObject, Cycle, Face, Region, Surface, Topology, Vertex};
use fj_core::validation::{TakeErrors, ValidateObject, Validation, ValidationConfig};

#[test]
fn identity_not_value_decides_equality() {
    let mut store = Store::new();
    let a = store.insert(Vertex::new());
    let b = store.insert(Vertex::new());
    // Two independently stored, value-identical objects: unequal handles.
    assert!(a != b);
    // A clone of a handle equals the handle.
    assert!(a.clone() == a);
    assert!(b.clone() == b);
}

fn empty_boundary_face(store: &mut Store) -> AnyObject {
    let exterior = store.insert(Cycle::new(vec![]));
    let region = store.insert(Region::new(exterior, vec![]));
    let surface = store.insert(Surface::new());
    AnyObject::Face(store.insert(Face::new(surface, region)))
}

#[test]
fn drain_reports_and_clears_failures() {
    let mut store = Store::new();
    let topology = Topology::new(&mut store);
    let geometry = Geometry::new(&topology);
    let mut layer = Layer::new(Validation::new(ValidationConfig::default()));

    let object = empty_boundary_face(&mut store);
    let mut events = Vec::new();
    layer.process(ValidateObject { object: object.clone(), geometry: &geometry }, &mut events);
    assert_eq!(events.len(), 1);
    assert!(events[0].object.id() == object.id());

    let drained = layer.take_errors();
    match drained {
        Ok(()) => panic!("a failure was recorded, so the drain must report it"),
        Err(errors) => assert_eq!(errors.0.len(), 1),
    }

    // Drain idempotence: the failed drain cleared the state, so a second
    // drain with no intervening validation succeeds.
    assert!(layer.take_errors().is_ok());
}

#[test]
fn revalidation_does_not_clear_and_failures_deduplicate() {
    let mut store = Store::new();
    let topology = Topology::new(&mut store);
    let geometry = Geometry::new(&topology);
    let mut layer = Layer::new(Validation::new(ValidationConfig::default()));

    let object = empty_boundary_face(&mut store);
    // Validating the same object twice records one failure, keyed by the
    // object's identity.
    let mut events = Vec::new();
    layer.process(ValidateObject { object: object.clone(), geometry: &geometry }, &mut events);
    let mut events = Vec::new();
    layer.process(ValidateObject { object: object.clone(), geometry: &geometry }, &mut events);

    match layer.take_errors() {
        Ok(()) => panic!("a failure was recorded, so the drain must report it"),
        Err(errors) => assert_eq!(errors.0.len(), 1),
    }
}

#[test]
fn drain_on_empty_layer_succeeds() {
    let mut layer = Layer::new(Validation::new(ValidationConfig::default()));
    assert!(layer.take_errors().is_ok());
    let mut events: Vec<TakeErrors> = Vec::new();
    let r = layer.process(TakeErrors {}, &mut events);
    assert!(r.is_ok());
    assert_eq!(events.len(), 1);
}

#[test]
fn replaying_identical_commands_gives_identical_outcomes() {
    let mut store = Store::new();
    let topology = Topology::new(&mut store);
    let geometry = Geometry::new(&topology);
    let object = empty_boundary_face(&mut store);

    let mut first = Layer::new(Validation::new(ValidationConfig::default()));
    let mut second = Layer::new(Validation::new(ValidationConfig::default()));
    for layer in [&mut first, &mut second] {
        let mut events = Vec::new();
        layer.process(ValidateObject { object: object.clone(), geometry: &geometry }, &mut events);
    }
    let first_drained = first.take_errors();
    let second_drained = second.take_errors();
    match (first_drained, second_drained) {
        (Err(a), Err(b)) => assert_eq!(a.0.len(), b.0.len()),
        _ => panic!("both layers saw the same events, so both drains must fail"),
    }
    assert!(first.take_errors().is_ok());
    assert!(second.take_errors().is_ok());
}
