//! Partial objects and their completion.

use fj_core::math::Point2;
use fj_core::partial::{
    GlobalCurve, GlobalEdge, HasPartialForm, MaybePartial, PartialGlobalEdge,
    PartialSurfaceVertex, PartialVertex, SurfaceVertex, Vertex,
};
use fj_core::storage::Store;
use fj_core::topology::Surface;

#[test]
fn into_full_keeps_a_full_object_and_completes_a_partial_one() {
    let mut store = Store::new();
    let curve = store.insert(GlobalCurve {});
    let full = GlobalEdge::new(curve.clone());
    let edge = MaybePartial::Full(full).into_full(&mut store);
    assert!(*edge.curve() == curve);

    let partial = PartialGlobalEdge { curve: Some(curve.clone()) };
    let edge = MaybePartial::<GlobalEdge>::Partial(partial).into_full(&mut store);
    assert!(*edge.curve() == curve);

    // A partial edge with no curve gets a freshly stored one.
    let partial = PartialGlobalEdge { curve: None };
    let edge = MaybePartial::<GlobalEdge>::Partial(partial).into_full(&mut store);
    assert!(*edge.curve() != curve);
}

#[test]
fn into_partial_keeps_a_partial_object_and_reduces_a_full_one() {
    let mut store = Store::new();
    let curve = store.insert(GlobalCurve {});
    let partial = MaybePartial::Full(GlobalEdge::new(curve.clone())).into_partial();
    assert!(partial.curve == Some(curve.clone()));

    let partial = MaybePartial::<GlobalEdge>::Partial(PartialGlobalEdge { curve: None })
        .into_partial();
    assert!(partial.curve.is_none());
}

#[test]
fn curve_and_surface_accessors_see_through_both_forms() {
    let mut store = Store::new();
    let curve = store.insert(GlobalCurve {});
    let full = MaybePartial::Full(GlobalEdge::new(curve.clone()));
    assert!(full.curve() == Some(&curve));
    let partial = MaybePartial::<GlobalEdge>::Partial(PartialGlobalEdge { curve: None });
    assert!(partial.curve().is_none());

    let surface = store.insert(Surface::new());
    let sv = SurfaceVertex::new(surface.clone(), Point2::new(1, 2));
    let full = MaybePartial::Full(sv);
    assert!(full.surface() == Some(&surface));
    let partial = MaybePartial::<SurfaceVertex>::Partial(PartialSurfaceVertex {
        surface: Some(surface.clone()),
        position: None,
    });
    assert!(partial.surface() == Some(&surface));
}

#[test]
fn surface_form_is_carried_through() {
    let mut store = Store::new();
    let surface = store.insert(Surface::new());
    let sv = SurfaceVertex::new(surface.clone(), Point2::new(1, 2));
    let vertex = Vertex::new(sv);
    let form = MaybePartial::Full(vertex).surface_form().expect("full vertex has a form");
    match form {
        MaybePartial::Full(sv) => assert!(*sv.surface() == surface),
        MaybePartial::Partial(_) => panic!("a full vertex yields its full surface form"),
    }

    let partial = MaybePartial::<Vertex>::Partial(PartialVertex { surface_form: None });
    assert!(partial.surface_form().is_none());

    let mut store2 = Store::new();
    let completed = Vertex::from_partial(PartialVertex { surface_form: None }, &mut store2);
    // Completion stored a fresh surface for the open surface form.
    let _ = completed.surface_form();
}
