//! Partially defined objects.
//!
//! While a model is being built, an object may exist in a partial form
//! that leaves some of its parts open. [`MaybePartial`] holds either the
//! full object or its partial form, and can produce either on demand:
//! the full object by completing the partial form against a store, the
//! partial form by forgetting what the full object had fixed.

use crate::math::Point2;
use crate::storage::{Handle, Store};
use crate::topology::Surface;
use vstd::prelude::*;

verus! {

/// An object kind with a partial form.
pub trait HasPartialForm: Sized {
    /// The partial form of this object kind.
    type PartialForm;

    /// How many fresh storage cells completing a partial form may take,
    /// at most.
    spec fn ids_needed() -> u64;

    /// Whether the full object agrees with everything the partial form
    /// fixes.
    spec fn completes(full: &Self, partial: &Self::PartialForm) -> bool;

    /// Build the full object from a partial form, storing fresh objects
    /// for whatever the partial form leaves open.
    fn from_partial(partial: Self::PartialForm, store: &mut Store) -> (r: Self)
        requires
            old(store).next_id_spec() <= u64::MAX - Self::ids_needed(),
        ensures
            Self::completes(&r, &partial),
    ;

    /// Forget nothing: the partial form that fixes everything this full
    /// object has.
    fn to_partial(self) -> (r: Self::PartialForm)
        ensures
            Self::completes(&self, &r),
    ;
}

/// Either a partial object or a full one.
#[derive(Debug)]
pub enum MaybePartial<T: HasPartialForm> {
    /// A full object.
    Full(T),
    /// A partial object.
    Partial(T::PartialForm),
}

impl<T: HasPartialForm> MaybePartial<T> {
    /// Return the full object, either directly or by building it.
    pub fn into_full(self, store: &mut Store) -> (r: T)
        requires
            old(store).next_id_spec() <= u64::MAX - T::ids_needed(),
        ensures
            self matches MaybePartial::Full(full) ==> r == full,
            self matches MaybePartial::Partial(partial) ==> T::completes(&r, &partial),
    {
        match self {
            MaybePartial::Partial(partial) => T::from_partial(partial, store),
            MaybePartial::Full(full) => full,
        }
    }

    /// Return the partial object, either directly or via conversion.
    pub fn into_partial(self) -> (r: T::PartialForm)
        ensures
            self matches MaybePartial::Partial(partial) ==> r == partial,
            self matches MaybePartial::Full(full) ==> T::completes(&full, &r),
    {
        match self {
            MaybePartial::Partial(partial) => partial,
            MaybePartial::Full(full) => full.to_partial(),
        }
    }
}

/// A curve in global coordinates: pure identity.
#[derive(Debug)]
pub struct GlobalCurve {}

/// An edge in global coordinates, lying on a global curve.
#[derive(Debug)]
pub struct GlobalEdge {
    curve: Handle<GlobalCurve>,
}

impl GlobalEdge {
    /// The curve the edge lies on.
    pub closed spec fn curve_spec(&self) -> Handle<GlobalCurve> {
        self.curve
    }

    /// Build an edge on the given curve.
    pub fn new(curve: Handle<GlobalCurve>) -> (r: GlobalEdge)
        ensures
            r.curve_spec() == curve,
    {
        GlobalEdge { curve }
    }

    /// Access the curve the edge lies on.
    pub fn curve(&self) -> (r: &Handle<GlobalCurve>)
        ensures
            *r == self.curve_spec(),
    {
        &self.curve
    }
}

/// A partial global edge: its curve may still be open.
#[derive(Debug)]
pub struct PartialGlobalEdge {
    /// The curve the edge lies on, if already fixed.
    pub curve: Option<Handle<GlobalCurve>>,
}

impl HasPartialForm for GlobalEdge {
    type PartialForm = PartialGlobalEdge;

    open spec fn ids_needed() -> u64 {
        1
    }

    open spec fn completes(full: &GlobalEdge, partial: &PartialGlobalEdge) -> bool {
        match partial.curve {
            Option::Some(curve) => full.curve_spec() == curve,
            Option::None => true,
        }
    }

    fn from_partial(partial: PartialGlobalEdge, store: &mut Store) -> (r: GlobalEdge) {
        match partial.curve {
            Option::Some(curve) => GlobalEdge { curve },
            Option::None => GlobalEdge { curve: store.insert(GlobalCurve {  }) },
        }
    }

    fn to_partial(self) -> (r: PartialGlobalEdge) {
        PartialGlobalEdge { curve: Option::Some(self.curve) }
    }
}

impl MaybePartial<GlobalEdge> {
    /// Access the curve, if it is already fixed.
    pub fn curve(&self) -> (r: Option<&Handle<GlobalCurve>>)
        ensures
            match self {
                MaybePartial::Full(full) => r matches Option::Some(c) && *c == full.curve_spec(),
                MaybePartial::Partial(partial) => match partial.curve {
                    Option::Some(pc) => r matches Option::Some(c) && *c == pc,
                    Option::None => r is None,
                },
            },
    {
        match self {
            MaybePartial::Full(full) => Option::Some(full.curve()),
            MaybePartial::Partial(partial) => partial.curve.as_ref(),
        }
    }
}

/// A vertex as it appears on one surface.
#[derive(Debug)]
pub struct SurfaceVertex {
    surface: Handle<Surface>,
    position: Point2,
}

impl SurfaceVertex {
    /// The surface the vertex lies on.
    pub closed spec fn surface_spec(&self) -> Handle<Surface> {
        self.surface
    }

    /// The vertex's position on that surface.
    pub closed spec fn position_spec(&self) -> Point2 {
        self.position
    }

    /// Build a surface vertex.
    pub fn new(surface: Handle<Surface>, position: Point2) -> (r: SurfaceVertex)
        ensures
            r.surface_spec() == surface,
            r.position_spec() == position,
    {
        SurfaceVertex { surface, position }
    }

    /// Access the surface the vertex lies on.
    pub fn surface(&self) -> (r: &Handle<Surface>)
        ensures
            *r == self.surface_spec(),
    {
        &self.surface
    }
}

impl Clone for SurfaceVertex {
    /// A clone names the same surface and position.
    fn clone(&self) -> (r: Self)
        ensures
            r == *self,
    {
        SurfaceVertex { surface: self.surface.clone(), position: self.position }
    }
}

/// A partial surface vertex: surface and position may still be open.
#[derive(Debug)]
pub struct PartialSurfaceVertex {
    /// The surface, if already fixed.
    pub surface: Option<Handle<Surface>>,
    /// The position on the surface, if already fixed.
    pub position: Option<Point2>,
}

impl Clone for PartialSurfaceVertex {
    /// A clone fixes exactly what the original fixes.
    fn clone(&self) -> (r: Self)
        ensures
            r == *self,
    {
        PartialSurfaceVertex {
            surface: match &self.surface {
                Option::Some(s) => Option::Some(s.clone()),
                Option::None => Option::None,
            },
            position: self.position,
        }
    }
}

impl HasPartialForm for SurfaceVertex {
    type PartialForm = PartialSurfaceVertex;

    open spec fn ids_needed() -> u64 {
        1
    }

    open spec fn completes(full: &SurfaceVertex, partial: &PartialSurfaceVertex) -> bool {
        &&& match partial.surface {
            Option::Some(surface) => full.surface_spec() == surface,
            Option::None => true,
        }
        &&& match partial.position {
            Option::Some(position) => full.position_spec() == position,
            Option::None => true,
        }
    }

    fn from_partial(partial: PartialSurfaceVertex, store: &mut Store) -> (r: SurfaceVertex) {
        let surface = match partial.surface {
            Option::Some(surface) => surface,
            Option::None => store.insert(Surface::new()),
        };
        let position = match partial.position {
            Option::Some(position) => position,
            Option::None => Point2::new(0, 0),
        };
        SurfaceVertex { surface, position }
    }

    fn to_partial(self) -> (r: PartialSurfaceVertex) {
        PartialSurfaceVertex {
            surface: Option::Some(self.surface),
            position: Option::Some(self.position),
        }
    }
}

impl Clone for MaybePartial<SurfaceVertex> {
    /// A clone holds the same full or partial object.
    fn clone(&self) -> (r: Self)
        ensures
            r == *self,
    {
        match self {
            MaybePartial::Full(full) => MaybePartial::Full(full.clone()),
            MaybePartial::Partial(partial) => MaybePartial::Partial(partial.clone()),
        }
    }
}

impl MaybePartial<SurfaceVertex> {
    /// Access the surface, if it is already fixed.
    pub fn surface(&self) -> (r: Option<&Handle<Surface>>)
        ensures
            match self {
                MaybePartial::Full(full) => r matches Option::Some(s) && *s == full.surface_spec(),
                MaybePartial::Partial(partial) => match partial.surface {
                    Option::Some(ps) => r matches Option::Some(s) && *s == ps,
                    Option::None => r is None,
                },
            },
    {
        match self {
            MaybePartial::Full(full) => Option::Some(full.surface()),
            MaybePartial::Partial(partial) => partial.surface.as_ref(),
        }
    }
}

/// A vertex under construction, known through its surface form.
#[derive(Debug)]
pub struct Vertex {
    surface_form: SurfaceVertex,
}

impl Vertex {
    /// The vertex's surface form.
    pub closed spec fn surface_form_spec(&self) -> SurfaceVertex {
        self.surface_form
    }

    /// Build a vertex from its surface form.
    pub fn new(surface_form: SurfaceVertex) -> (r: Vertex)
        ensures
            r.surface_form_spec() == surface_form,
    {
        Vertex { surface_form }
    }

    /// Access the vertex's surface form.
    pub fn surface_form(&self) -> (r: &SurfaceVertex)
        ensures
            *r == self.surface_form_spec(),
    {
        &self.surface_form
    }
}

/// A partial vertex: its surface form may still be open, and may itself
/// be partial.
#[derive(Debug)]
pub struct PartialVertex {
    /// The surface form, if anything about it is fixed.
    pub surface_form: Option<MaybePartial<SurfaceVertex>>,
}

impl HasPartialForm for Vertex {
    type PartialForm = PartialVertex;

    open spec fn ids_needed() -> u64 {
        2
    }

    open spec fn completes(full: &Vertex, partial: &PartialVertex) -> bool {
        match partial.surface_form {
            Option::Some(MaybePartial::Full(sv)) => full.surface_form_spec() == sv,
            Option::Some(MaybePartial::Partial(psv)) => SurfaceVertex::completes(
                &full.surface_form_spec(),
                &psv,
            ),
            Option::None => true,
        }
    }

    fn from_partial(partial: PartialVertex, store: &mut Store) -> (r: Vertex) {
        let surface_form = match partial.surface_form {
            Option::Some(maybe) => maybe.into_full(store),
            Option::None => SurfaceVertex::from_partial(
                PartialSurfaceVertex { surface: Option::None, position: Option::None },
                store,
            ),
        };
        Vertex { surface_form }
    }

    fn to_partial(self) -> (r: PartialVertex) {
        PartialVertex { surface_form: Option::Some(MaybePartial::Full(self.surface_form)) }
    }
}

impl MaybePartial<Vertex> {
    /// Access the surface form, if anything about it is fixed.
    pub fn surface_form(&self) -> (r: Option<MaybePartial<SurfaceVertex>>)
        ensures
            match self {
                MaybePartial::Full(full) => r matches Option::Some(m) && m matches
                    MaybePartial::Full(sv) && sv == full.surface_form_spec(),
                MaybePartial::Partial(partial) => r == partial.surface_form,
            },
    {
        match self {
            MaybePartial::Full(full) => Option::Some(
                MaybePartial::Full(full.surface_form().clone()),
            ),
            MaybePartial::Partial(partial) => match &partial.surface_form {
                Option::Some(maybe) => Option::Some(maybe.clone()),
                Option::None => Option::None,
            },
        }
    }
}

} // verus!
