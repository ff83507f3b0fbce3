//! Geometric data associated with topological objects.
//!
//! [`Geometry`] is a read-only lookup interface for the validation checks:
//! it maps curve, surface and vertex handles to their geometric
//! definitions. Surfaces must always resolve — asking for an undefined
//! surface is host misuse, excluded by contract. Curves and vertices may
//! legitimately be unresolved for a partially constructed object; a miss
//! there means "no constraint yet", not an error.

use crate::id_map::{has_key, lookup, IdMap};
use crate::math::{lemma_mul_bound, Point2, Point3, Vector2, Vector3, COORD_LIMIT};
use crate::storage::Handle;
use crate::topology::{Curve, Cycle, Surface, Topology, Vertex};
use vstd::prelude::*;

verus! {

/// The rotational orientation of a closed boundary cycle.
#[derive(Clone, Copy, Debug, PartialEq, Eq, Structural)]
pub enum Winding {
    /// Clockwise: negative signed area.
    Cw,
    /// Counter-clockwise: positive signed area.
    Ccw,
}

/// The path of a curve through three-dimensional space.
#[derive(Clone, Copy, Debug, PartialEq, Eq, Structural)]
pub enum GlobalPath {
    /// A circle around a center.
    Circle {
        /// The center of the circle.
        center: Point3,
        /// The radius of the circle.
        radius: i64,
    },
    /// A straight line.
    Line {
        /// A point on the line.
        origin: Point3,
        /// The direction of the line.
        direction: Vector3,
    },
}

impl GlobalPath {
    /// The line along the x axis.
    pub fn x_axis() -> (r: GlobalPath)
        ensures
            r == (GlobalPath::Line {
                origin: Point3 { x: 0i64, y: 0i64, z: 0i64 },
                direction: Vector3 { x: 1i64, y: 0i64, z: 0i64 },
            }),
    {
        GlobalPath::Line { origin: Point3::new(0, 0, 0), direction: Vector3::unit_x() }
    }

    /// The line along the y axis.
    pub fn y_axis() -> (r: GlobalPath)
        ensures
            r == (GlobalPath::Line {
                origin: Point3 { x: 0i64, y: 0i64, z: 0i64 },
                direction: Vector3 { x: 0i64, y: 1i64, z: 0i64 },
            }),
    {
        GlobalPath::Line { origin: Point3::new(0, 0, 0), direction: Vector3::unit_y() }
    }
}

/// The geometry that defines a surface: a path swept along a vector.
#[derive(Clone, Copy, Debug, PartialEq, Eq, Structural)]
pub struct SurfaceGeom {
    /// The path that is swept.
    pub u: GlobalPath,
    /// The direction the path is swept along.
    pub v: Vector3,
}

/// The path of a curve across one particular surface, in that surface's
/// two-dimensional coordinates.
#[derive(Clone, Copy, Debug, PartialEq, Eq, Structural)]
pub enum SurfacePath {
    /// A circle around a center on the surface.
    Circle {
        /// The center of the circle.
        center: Point2,
        /// The radius of the circle.
        radius: i64,
    },
    /// A straight line across the surface.
    Line {
        /// A point on the line.
        origin: Point2,
        /// The direction of the line.
        direction: Vector2,
    },
}

/// The geometric definition of a curve on one particular surface.
#[derive(Clone, Copy, Debug, PartialEq, Eq, Structural)]
pub struct LocalCurveGeom {
    /// The path of the curve across the surface.
    pub path: SurfacePath,
}

/// The geometric definitions of a curve, one per surface it lies on.
pub struct CurveGeom {
    /// The definitions, keyed by the id of the surface.
    pub definitions: IdMap<LocalCurveGeom>,
}

impl CurveGeom {
    /// A curve with no definitions yet.
    pub fn new() -> (r: CurveGeom)
        ensures
            r.definitions@ == Seq::<(u64, LocalCurveGeom)>::empty(),
    {
        CurveGeom { definitions: IdMap::new() }
    }

    /// The curve's path on the given surface, if defined there.
    pub fn local_on(&self, surface: &Handle<Surface>) -> (r: Option<&LocalCurveGeom>)
        ensures
            match lookup(self.definitions@, surface.id_spec()) {
                Option::Some(v) => r matches Option::Some(x) && *x == v,
                Option::None => r is None,
            },
    {
        self.definitions.get(surface.id())
    }
}

/// The position of a vertex on one particular surface, in that surface's
/// two-dimensional coordinates. The coordinates are kept within the
/// arithmetic bound, so winding computations over stored positions cannot
/// overflow.
#[derive(Clone, Copy, Debug)]
pub struct LocalVertexGeom {
    position: Point2,
}

impl LocalVertexGeom {
    /// The two coordinates always stay within the arithmetic bound; Verus
    /// maintains this as a type invariant.
    #[verifier::type_invariant]
    pub open spec fn wf(self) -> bool {
        self.position_spec().bounded()
    }

    /// The stored position.
    pub closed spec fn position_spec(&self) -> Point2 {
        self.position
    }

    /// Record a position; it must lie within the arithmetic bound.
    pub fn new(position: Point2) -> (r: LocalVertexGeom)
        requires
            position.bounded(),
        ensures
            r.position_spec() == position,
    {
        LocalVertexGeom { position }
    }

    /// Read the position; it is within the arithmetic bound.
    pub fn position(&self) -> (r: Point2)
        ensures
            r == self.position_spec(),
            r.bounded(),
    {
        proof {
            use_type_invariant(&*self);
        }
        self.position
    }
}

/// The geometric definitions of a vertex, one per surface.
pub struct VertexGeom {
    /// The definitions, keyed by the id of the surface.
    pub definitions: IdMap<LocalVertexGeom>,
}

impl VertexGeom {
    /// A vertex with no definitions yet.
    pub fn new() -> (r: VertexGeom)
        ensures
            r.definitions@ == Seq::<(u64, LocalVertexGeom)>::empty(),
    {
        VertexGeom { definitions: IdMap::new() }
    }

    /// The vertex's position on the given surface, if defined there.
    pub fn local_on(&self, surface: &Handle<Surface>) -> (r: Option<&LocalVertexGeom>)
        ensures
            match lookup(self.definitions@, surface.id_spec()) {
                Option::Some(v) => r matches Option::Some(x) && *x == v,
                Option::None => r is None,
            },
    {
        self.definitions.get(surface.id())
    }
}

/// Geometric data that is associated with topological objects.
pub struct Geometry {
    curve: IdMap<CurveGeom>,
    surface: IdMap<SurfaceGeom>,
    vertex: IdMap<VertexGeom>,
    space_2d: Handle<Surface>,
    xy_plane: Handle<Surface>,
    xz_plane: Handle<Surface>,
    yz_plane: Handle<Surface>,
}

impl Geometry {
    /// The per-curve definitions, keyed by curve id.
    pub closed spec fn curve_map_spec(&self) -> Seq<(u64, CurveGeom)> {
        self.curve@
    }

    /// The per-surface definitions, keyed by surface id.
    pub closed spec fn surface_map_spec(&self) -> Seq<(u64, SurfaceGeom)> {
        self.surface@
    }

    /// The per-vertex definitions, keyed by vertex id.
    pub closed spec fn vertex_map_spec(&self) -> Seq<(u64, VertexGeom)> {
        self.vertex@
    }

    /// The surface that stands for two-dimensional space.
    pub closed spec fn space_2d_spec(&self) -> Handle<Surface> {
        self.space_2d
    }

    /// The xy basis plane's surface.
    pub closed spec fn xy_plane_spec(&self) -> Handle<Surface> {
        self.xy_plane
    }

    /// The xz basis plane's surface.
    pub closed spec fn xz_plane_spec(&self) -> Handle<Surface> {
        self.xz_plane
    }

    /// The yz basis plane's surface.
    pub closed spec fn yz_plane_spec(&self) -> Handle<Surface> {
        self.yz_plane
    }

    /// The basis planes are always defined and the special surfaces are
    /// pairwise distinct cells.
    pub open spec fn wf(&self) -> bool {
        &&& has_key(self.surface_map_spec(), self.xy_plane_spec().id_spec())
        &&& has_key(self.surface_map_spec(), self.xz_plane_spec().id_spec())
        &&& has_key(self.surface_map_spec(), self.yz_plane_spec().id_spec())
        &&& !self.space_2d_spec().same_cell(&self.xy_plane_spec())
        &&& !self.space_2d_spec().same_cell(&self.xz_plane_spec())
        &&& !self.space_2d_spec().same_cell(&self.yz_plane_spec())
        &&& !self.xy_plane_spec().same_cell(&self.xz_plane_spec())
        &&& !self.xy_plane_spec().same_cell(&self.yz_plane_spec())
        &&& !self.xz_plane_spec().same_cell(&self.yz_plane_spec())
    }

    /// Create a new instance of `Geometry`, with the three basis planes
    /// already defined: the xy plane is the x axis swept along y, the xz
    /// plane the x axis swept along z, the yz plane the y axis swept
    /// along z.
    pub fn new(topology: &Topology) -> (r: Geometry)
        ensures
            r.wf(),
            r.space_2d_spec() == topology.space_2d_spec(),
            r.xy_plane_spec() == topology.xy_plane_spec(),
            r.xz_plane_spec() == topology.xz_plane_spec(),
            r.yz_plane_spec() == topology.yz_plane_spec(),
            r.curve_map_spec() == Seq::<(u64, CurveGeom)>::empty(),
            r.vertex_map_spec() == Seq::<(u64, VertexGeom)>::empty(),
            lookup(r.surface_map_spec(), topology.xy_plane_spec().id_spec()) == Option::Some(
                SurfaceGeom {
                    u: GlobalPath::Line {
                        origin: Point3 { x: 0i64, y: 0i64, z: 0i64 },
                        direction: Vector3 { x: 1i64, y: 0i64, z: 0i64 },
                    },
                    v: Vector3 { x: 0i64, y: 1i64, z: 0i64 },
                },
            ),
            lookup(r.surface_map_spec(), topology.xz_plane_spec().id_spec()) == Option::Some(
                SurfaceGeom {
                    u: GlobalPath::Line {
                        origin: Point3 { x: 0i64, y: 0i64, z: 0i64 },
                        direction: Vector3 { x: 1i64, y: 0i64, z: 0i64 },
                    },
                    v: Vector3 { x: 0i64, y: 0i64, z: 1i64 },
                },
            ),
            lookup(r.surface_map_spec(), topology.yz_plane_spec().id_spec()) == Option::Some(
                SurfaceGeom {
                    u: GlobalPath::Line {
                        origin: Point3 { x: 0i64, y: 0i64, z: 0i64 },
                        direction: Vector3 { x: 0i64, y: 1i64, z: 0i64 },
                    },
                    v: Vector3 { x: 0i64, y: 0i64, z: 1i64 },
                },
            ),
    {
        proof {
            use_type_invariant(&*topology);
        }
        let space_2d = topology.space_2d();
        let xy_plane = topology.xy_plane();
        let xz_plane = topology.xz_plane();
        let yz_plane = topology.yz_plane();

        let mut surface: IdMap<SurfaceGeom> = IdMap::new();
        let ghost s0 = surface@;
        surface.insert(
            xy_plane.id(),
            SurfaceGeom { u: GlobalPath::x_axis(), v: Vector3::unit_y() },
        );
        let ghost s1 = surface@;
        surface.insert(
            xz_plane.id(),
            SurfaceGeom { u: GlobalPath::x_axis(), v: Vector3::unit_z() },
        );
        let ghost s2 = surface@;
        surface.insert(
            yz_plane.id(),
            SurfaceGeom { u: GlobalPath::y_axis(), v: Vector3::unit_z() },
        );
        proof {
            crate::id_map::lemma_push_lookup(
                s0,
                xy_plane.id_spec(),
                SurfaceGeom {
                    u: GlobalPath::Line {
                        origin: Point3 { x: 0i64, y: 0i64, z: 0i64 },
                        direction: Vector3 { x: 1i64, y: 0i64, z: 0i64 },
                    },
                    v: Vector3 { x: 0i64, y: 1i64, z: 0i64 },
                },
            );
            crate::id_map::lemma_push_lookup(
                s1,
                xz_plane.id_spec(),
                SurfaceGeom {
                    u: GlobalPath::Line {
                        origin: Point3 { x: 0i64, y: 0i64, z: 0i64 },
                        direction: Vector3 { x: 1i64, y: 0i64, z: 0i64 },
                    },
                    v: Vector3 { x: 0i64, y: 0i64, z: 1i64 },
                },
            );
            crate::id_map::lemma_push_lookup(
                s2,
                yz_plane.id_spec(),
                SurfaceGeom {
                    u: GlobalPath::Line {
                        origin: Point3 { x: 0i64, y: 0i64, z: 0i64 },
                        direction: Vector3 { x: 0i64, y: 1i64, z: 0i64 },
                    },
                    v: Vector3 { x: 0i64, y: 0i64, z: 1i64 },
                },
            );
            crate::id_map::lemma_lookup_has_key(surface@, xy_plane.id_spec());
            crate::id_map::lemma_lookup_has_key(surface@, xz_plane.id_spec());
            crate::id_map::lemma_lookup_has_key(surface@, yz_plane.id_spec());
        }
        Geometry {
            curve: IdMap::new(),
            surface,
            vertex: IdMap::new(),
            space_2d,
            xy_plane,
            xz_plane,
            yz_plane,
        }
    }

    /// The path of a curve on a surface, if the curve's geometry on that
    /// surface is defined.
    pub open spec fn curve_def_spec(&self, curve_id: u64, surface_id: u64) -> Option<
        LocalCurveGeom,
    > {
        match lookup(self.curve_map_spec(), curve_id) {
            Option::Some(cg) => lookup(cg.definitions@, surface_id),
            Option::None => Option::None,
        }
    }

    /// Record a curve's path on a surface, replacing any earlier path of
    /// that curve on the same surface and leaving every other definition
    /// as it was.
    pub fn define_curve_inner(
        &mut self,
        curve: Handle<Curve>,
        surface: Handle<Surface>,
        geometry: LocalCurveGeom,
    )
        ensures
            final(self).surface_map_spec() == old(self).surface_map_spec(),
            final(self).vertex_map_spec() == old(self).vertex_map_spec(),
            final(self).space_2d_spec() == old(self).space_2d_spec(),
            final(self).xy_plane_spec() == old(self).xy_plane_spec(),
            final(self).xz_plane_spec() == old(self).xz_plane_spec(),
            final(self).yz_plane_spec() == old(self).yz_plane_spec(),
            final(self).curve_def_spec(curve.id_spec(), surface.id_spec()) == Option::Some(
                geometry,
            ),
            forall|s2: u64|
                s2 != surface.id_spec() ==> final(self).curve_def_spec(curve.id_spec(), s2) == old(self).curve_def_spec(curve.id_spec(), s2),
            forall|c2: u64, s2: u64|
                c2 != curve.id_spec() ==> final(self).curve_def_spec(c2, s2) == old(self).curve_def_spec(c2, s2),
    {
        let curve_id = curve.id();
        let surface_id = surface.id();
        let mut cg = match self.curve.remove(curve_id) {
            Option::Some(cg) => cg,
            Option::None => CurveGeom::new(),
        };
        let ghost defs0 = cg.definitions@;
        cg.definitions.insert(surface_id, geometry);
        let ghost defs1 = cg.definitions@;
        proof {
            crate::id_map::lemma_lookup_has_key(defs0, surface_id);
            if has_key(defs0, surface_id) {
                crate::id_map::lemma_replace_lookup(defs0, defs1, surface_id, geometry);
            } else {
                crate::id_map::lemma_push_lookup(defs0, surface_id, geometry);
            }
        }
        let ghost cg_stored = cg;
        let ghost curves1 = self.curve@;
        self.curve.insert(curve_id, cg);
        proof {
            crate::id_map::lemma_lookup_has_key(curves1, curve_id);
            if has_key(curves1, curve_id) {
                crate::id_map::lemma_replace_lookup(curves1, self.curve@, curve_id, cg_stored);
            } else {
                crate::id_map::lemma_push_lookup(curves1, curve_id, cg_stored);
            }
            assert(lookup(self.curve@, curve.id_spec()) == Option::Some(cg_stored));
            assert(cg_stored.definitions@ == defs1);
            assert(lookup(defs1, surface.id_spec()) == Option::Some(geometry));
            assert forall|s2: u64| s2 != surface.id_spec() implies final(self).curve_def_spec(
                curve.id_spec(),
                s2,
            ) == old(self).curve_def_spec(curve.id_spec(), s2) by {
                assert(lookup(defs1, s2) == lookup(defs0, s2));
                match lookup(old(self).curve_map_spec(), curve.id_spec()) {
                    Option::Some(old_cg) => {
                        assert(defs0 == old_cg.definitions@);
                    },
                    Option::None => {
                        assert(lookup(defs0, s2) is None);
                    },
                }
            }
            assert forall|c2: u64, s2: u64| c2 != curve.id_spec() implies final(self).curve_def_spec(c2, s2) == old(self).curve_def_spec(c2, s2) by {
                assert(lookup(self.curve@, c2) == lookup(curves1, c2));
                assert(lookup(curves1, c2) == lookup(old(self).curve_map_spec(), c2));
            }
        }
    }

    /// Record a vertex's position on a surface, replacing any earlier
    /// position of that vertex on the same surface and leaving every
    /// other definition as it was.
    pub fn define_vertex_inner(
        &mut self,
        vertex: Handle<Vertex>,
        surface: Handle<Surface>,
        geometry: LocalVertexGeom,
    )
        ensures
            final(self).surface_map_spec() == old(self).surface_map_spec(),
            final(self).curve_map_spec() == old(self).curve_map_spec(),
            final(self).space_2d_spec() == old(self).space_2d_spec(),
            final(self).xy_plane_spec() == old(self).xy_plane_spec(),
            final(self).xz_plane_spec() == old(self).xz_plane_spec(),
            final(self).yz_plane_spec() == old(self).yz_plane_spec(),
            final(self).vertex_position_spec(vertex.id_spec(), surface.id_spec())
                == Option::Some(geometry.position_spec()),
            forall|s2: u64|
                s2 != surface.id_spec() ==> final(self).vertex_position_spec(vertex.id_spec(), s2)
                    == old(self).vertex_position_spec(vertex.id_spec(), s2),
            forall|v2: u64, s2: u64|
                v2 != vertex.id_spec() ==> final(self).vertex_position_spec(v2, s2) == old(self).vertex_position_spec(v2, s2),
    {
        let vertex_id = vertex.id();
        let surface_id = surface.id();
        let mut vg = match self.vertex.remove(vertex_id) {
            Option::Some(vg) => vg,
            Option::None => VertexGeom::new(),
        };
        let ghost defs0 = vg.definitions@;
        vg.definitions.insert(surface_id, geometry);
        let ghost defs1 = vg.definitions@;
        proof {
            crate::id_map::lemma_lookup_has_key(defs0, surface_id);
            if has_key(defs0, surface_id) {
                crate::id_map::lemma_replace_lookup(defs0, defs1, surface_id, geometry);
            } else {
                crate::id_map::lemma_push_lookup(defs0, surface_id, geometry);
            }
        }
        let ghost vg_stored = vg;
        let ghost vertices1 = self.vertex@;
        self.vertex.insert(vertex_id, vg);
        proof {
            crate::id_map::lemma_lookup_has_key(vertices1, vertex_id);
            if has_key(vertices1, vertex_id) {
                crate::id_map::lemma_replace_lookup(vertices1, self.vertex@, vertex_id, vg_stored);
            } else {
                crate::id_map::lemma_push_lookup(vertices1, vertex_id, vg_stored);
            }
            assert(lookup(self.vertex@, vertex.id_spec()) == Option::Some(vg_stored));
            assert(vg_stored.definitions@ == defs1);
            assert(lookup(defs1, surface.id_spec()) == Option::Some(geometry));
            assert forall|s2: u64| s2 != surface.id_spec() implies final(self).vertex_position_spec(vertex.id_spec(), s2) == old(self).vertex_position_spec(
                vertex.id_spec(),
                s2,
            ) by {
                assert(lookup(defs1, s2) == lookup(defs0, s2));
                match lookup(old(self).vertex_map_spec(), vertex.id_spec()) {
                    Option::Some(old_vg) => {
                        assert(defs0 == old_vg.definitions@);
                    },
                    Option::None => {
                        assert(lookup(defs0, s2) is None);
                    },
                }
            }
            assert forall|v2: u64, s2: u64| v2 != vertex.id_spec() implies final(self).vertex_position_spec(v2, s2) == old(self).vertex_position_spec(v2, s2) by {
                assert(lookup(self.vertex@, v2) == lookup(vertices1, v2));
                assert(lookup(vertices1, v2) == lookup(old(self).vertex_map_spec(), v2));
            }
        }
    }

    /// Record a surface's geometry. Geometry can never be defined for the
    /// surface that stands for two-dimensional space, and a basis plane's
    /// geometry, once defined, can never be redefined; both are host
    /// misuse, excluded by contract.
    pub fn define_surface_inner(&mut self, surface: Handle<Surface>, geometry: SurfaceGeom)
        requires
            !surface.same_cell(&old(self).space_2d_spec()),
            surface.same_cell(&old(self).xy_plane_spec()) ==> !has_key(
                old(self).surface_map_spec(),
                surface.id_spec(),
            ),
            surface.same_cell(&old(self).xz_plane_spec()) ==> !has_key(
                old(self).surface_map_spec(),
                surface.id_spec(),
            ),
            surface.same_cell(&old(self).yz_plane_spec()) ==> !has_key(
                old(self).surface_map_spec(),
                surface.id_spec(),
            ),
        ensures
            final(self).curve_map_spec() == old(self).curve_map_spec(),
            final(self).vertex_map_spec() == old(self).vertex_map_spec(),
            final(self).space_2d_spec() == old(self).space_2d_spec(),
            final(self).xy_plane_spec() == old(self).xy_plane_spec(),
            final(self).xz_plane_spec() == old(self).xz_plane_spec(),
            final(self).yz_plane_spec() == old(self).yz_plane_spec(),
            lookup(final(self).surface_map_spec(), surface.id_spec()) == Option::Some(geometry),
            forall|s2: u64|
                s2 != surface.id_spec() ==> lookup(final(self).surface_map_spec(), s2) == lookup(
                    old(self).surface_map_spec(),
                    s2,
                ),
            old(self).wf() ==> final(self).wf(),
    {
        let ghost surfaces0 = self.surface@;
        self.surface.insert(surface.id(), geometry);
        proof {
            crate::id_map::lemma_lookup_has_key(surfaces0, surface.id_spec());
            if has_key(surfaces0, surface.id_spec()) {
                crate::id_map::lemma_replace_lookup(
                    surfaces0,
                    self.surface@,
                    surface.id_spec(),
                    geometry,
                );
            } else {
                crate::id_map::lemma_push_lookup(surfaces0, surface.id_spec(), geometry);
            }
            if old(self).wf() {
                crate::id_map::lemma_lookup_has_key(surfaces0, old(self).xy_plane_spec().id_spec());
                crate::id_map::lemma_lookup_has_key(surfaces0, old(self).xz_plane_spec().id_spec());
                crate::id_map::lemma_lookup_has_key(surfaces0, old(self).yz_plane_spec().id_spec());
                crate::id_map::lemma_lookup_has_key(
                    self.surface@,
                    old(self).xy_plane_spec().id_spec(),
                );
                crate::id_map::lemma_lookup_has_key(
                    self.surface@,
                    old(self).xz_plane_spec().id_spec(),
                );
                crate::id_map::lemma_lookup_has_key(
                    self.surface@,
                    old(self).yz_plane_spec().id_spec(),
                );
            }
        }
    }

    /// Access the geometry of the provided curve, if any is defined.
    pub fn of_curve(&self, curve: &Handle<Curve>) -> (r: Option<&CurveGeom>)
        ensures
            match lookup(self.curve_map_spec(), curve.id_spec()) {
                Option::Some(v) => r matches Option::Some(x) && *x == v,
                Option::None => r is None,
            },
    {
        self.curve.get(curve.id())
    }

    /// Access the geometry of the provided surface. Asking for a surface
    /// whose geometry is not defined is host misuse, excluded by contract.
    pub fn of_surface(&self, surface: &Handle<Surface>) -> (r: &SurfaceGeom)
        requires
            has_key(self.surface_map_spec(), surface.id_spec()),
        ensures
            lookup(self.surface_map_spec(), surface.id_spec()) == Option::Some(*r),
    {
        proof {
            crate::id_map::lemma_lookup_has_key(self.surface_map_spec(), surface.id_spec());
        }
        match self.surface.get(surface.id()) {
            Option::Some(geom) => geom,
            Option::None => unreached(),
        }
    }

    /// Access the geometry of the provided vertex, if any is defined.
    pub fn of_vertex(&self, vertex: &Handle<Vertex>) -> (r: Option<&VertexGeom>)
        ensures
            match lookup(self.vertex_map_spec(), vertex.id_spec()) {
                Option::Some(v) => r matches Option::Some(x) && *x == v,
                Option::None => r is None,
            },
    {
        self.vertex.get(vertex.id())
    }

    /// Access the geometry of the xy plane.
    pub fn xy_plane(&self) -> (r: &SurfaceGeom)
        requires
            self.wf(),
        ensures
            lookup(self.surface_map_spec(), self.xy_plane_spec().id_spec()) == Option::Some(*r),
    {
        let handle = self.xy_plane.clone();
        self.of_surface(&handle)
    }

    /// Access the geometry of the xz plane.
    pub fn xz_plane(&self) -> (r: &SurfaceGeom)
        requires
            self.wf(),
        ensures
            lookup(self.surface_map_spec(), self.xz_plane_spec().id_spec()) == Option::Some(*r),
    {
        let handle = self.xz_plane.clone();
        self.of_surface(&handle)
    }

    /// Access the geometry of the yz plane.
    pub fn yz_plane(&self) -> (r: &SurfaceGeom)
        requires
            self.wf(),
        ensures
            lookup(self.surface_map_spec(), self.yz_plane_spec().id_spec()) == Option::Some(*r),
    {
        let handle = self.yz_plane.clone();
        self.of_surface(&handle)
    }

    /// The position of a vertex on a surface, if the vertex's geometry on
    /// that surface is defined.
    pub open spec fn vertex_position_spec(&self, vertex_id: u64, surface_id: u64) -> Option<
        Point2,
    > {
        match lookup(self.vertex_map_spec(), vertex_id) {
            Option::Some(vg) => match lookup(vg.definitions@, surface_id) {
                Option::Some(lvg) => Option::Some(lvg.position_spec()),
                Option::None => Option::None,
            },
            Option::None => Option::None,
        }
    }

    /// Look up the position of a vertex on a surface; a miss means the
    /// vertex is not constrained on that surface yet.
    pub fn vertex_position(&self, vertex: &Handle<Vertex>, surface: &Handle<Surface>) -> (r:
        Option<Point2>)
        ensures
            r == self.vertex_position_spec(vertex.id_spec(), surface.id_spec()),
            r matches Option::Some(p) ==> p.bounded(),
    {
        match self.of_vertex(vertex) {
            Option::Some(vg) => match vg.local_on(surface) {
                Option::Some(lvg) => Option::Some(lvg.position()),
                Option::None => Option::None,
            },
            Option::None => Option::None,
        }
    }
}

/// The z component of the cross product of two position vectors: one term
/// of the shoelace sum.
pub open spec fn cross_z(a: Point2, b: Point2) -> int {
    a.u * b.v - b.u * a.v
}

/// The successor of an index on a closed polygon of `n` corners.
pub open spec fn next_index(i: int, n: int) -> int {
    if i + 1 == n {
        0
    } else {
        i + 1
    }
}

/// The shoelace sum over the first `k` corners of a closed polygon.
pub open spec fn twice_area_to(ps: Seq<Point2>, k: int) -> int
    decreases k,
{
    if k <= 0 {
        0
    } else {
        twice_area_to(ps, k - 1) + cross_z(ps[k - 1], ps[next_index(k - 1, ps.len() as int)])
    }
}

/// Twice the signed area of the closed polygon through the given points.
pub open spec fn twice_area(ps: Seq<Point2>) -> int {
    twice_area_to(ps, ps.len() as int)
}

/// The winding of the closed polygon through the given points: positive
/// signed area winds counter-clockwise, negative clockwise; a degenerate
/// polygon of zero area has no winding.
pub open spec fn winding_spec(ps: Seq<Point2>) -> Option<Winding> {
    if twice_area(ps) > 0 {
        Option::Some(Winding::Ccw)
    } else if twice_area(ps) < 0 {
        Option::Some(Winding::Cw)
    } else {
        Option::None
    }
}

/// One shoelace term over bounded points is bounded.
proof fn lemma_cross_bound(a: Point2, b: Point2)
    requires
        a.bounded(),
        b.bounded(),
    ensures
        -0x2000_0000_0000_0000 <= cross_z(a, b) <= 0x2000_0000_0000_0000,
{
    lemma_mul_bound(a.u as int, b.v as int, COORD_LIMIT as int);
    lemma_mul_bound(b.u as int, a.v as int, COORD_LIMIT as int);
}

/// The partial shoelace sum over bounded points grows at most linearly.
proof fn lemma_twice_area_bound(ps: Seq<Point2>, k: int)
    requires
        0 <= k <= ps.len(),
        forall|i: int| 0 <= i < ps.len() ==> (#[trigger] ps[i]).bounded(),
    ensures
        -(k * 0x2000_0000_0000_0000) <= twice_area_to(ps, k) <= k * 0x2000_0000_0000_0000,
    decreases k,
{
    if k > 0 {
        lemma_twice_area_bound(ps, k - 1);
        lemma_cross_bound(ps[k - 1], ps[next_index(k - 1, ps.len() as int)]);
    }
}

/// Compute the winding of the closed polygon through the given points.
pub fn winding_of(points: &Vec<Point2>) -> (r: Option<Winding>)
    requires
        forall|i: int| 0 <= i < points@.len() ==> (#[trigger] points@[i]).bounded(),
    ensures
        r == winding_spec(points@),
{
    let n = points.len();
    let mut acc: i128 = 0;
    let mut k: usize = 0;
    while k < n
        invariant
            n == points@.len(),
            k <= n,
            forall|i: int| 0 <= i < points@.len() ==> (#[trigger] points@[i]).bounded(),
            acc == twice_area_to(points@, k as int),
            -((k as int) * 0x2000_0000_0000_0000) <= acc <= (k as int) * 0x2000_0000_0000_0000,
        decreases n - k,
    {
        let a = points[k];
        let next: usize = if k + 1 == n {
            0
        } else {
            k + 1
        };
        let b = points[next];
        proof {
            lemma_mul_bound(a.u as int, b.v as int, COORD_LIMIT as int);
            lemma_mul_bound(b.u as int, a.v as int, COORD_LIMIT as int);
        }
        let term: i128 = (a.u as i128) * (b.v as i128) - (b.u as i128) * (a.v as i128);
        acc = acc + term;
        k = k + 1;
        proof {
            assert(term == cross_z(a, b));
            assert(next as int == next_index(k - 1 as int, points@.len() as int));
            assert(acc == twice_area_to(points@, k as int));
        }
    }
    if acc > 0 {
        Option::Some(Winding::Ccw)
    } else if acc < 0 {
        Option::Some(Winding::Cw)
    } else {
        Option::None
    }
}

/// The identity of the start vertex of a cycle's `i`-th half-edge.
pub open spec fn cycle_vertex_id(cycle: &Cycle, i: int) -> u64 {
    cycle.half_edges_spec()[i].value_spec().start_vertex_spec().id_spec()
}

/// Whether every corner of the cycle has a position on the surface.
pub open spec fn cycle_positions_resolved(
    geometry: &Geometry,
    cycle: &Cycle,
    surface_id: u64,
) -> bool {
    forall|i: int|
        0 <= i < cycle.half_edges_spec().len() ==> geometry.vertex_position_spec(
            #[trigger] cycle_vertex_id(cycle, i),
            surface_id,
        ) is Some
}

/// The positions of the cycle's corners on the surface, in cycle order.
pub open spec fn cycle_positions_spec(
    geometry: &Geometry,
    cycle: &Cycle,
    surface_id: u64,
) -> Seq<Point2> {
    Seq::new(
        cycle.half_edges_spec().len(),
        |i: int|
            match geometry.vertex_position_spec(cycle_vertex_id(cycle, i), surface_id) {
                Option::Some(p) => p,
                Option::None => Point2 { u: 0i64, v: 0i64 },
            },
    )
}

/// The winding of a cycle on a surface: the winding of the polygon through
/// its corner positions, or nothing while any corner is unconstrained on
/// that surface or the polygon is degenerate.
pub open spec fn cycle_winding_spec(geometry: &Geometry, cycle: &Cycle, surface_id: u64) -> Option<
    Winding,
> {
    if cycle_positions_resolved(geometry, cycle, surface_id) {
        winding_spec(cycle_positions_spec(geometry, cycle, surface_id))
    } else {
        Option::None
    }
}

/// Compute the winding of a cycle on a surface from the stored vertex
/// positions.
pub fn cycle_winding(geometry: &Geometry, cycle: &Cycle, surface: &Handle<Surface>) -> (r: Option<
    Winding,
>)
    ensures
        r == cycle_winding_spec(geometry, cycle, surface.id_spec()),
{
    let half_edges = cycle.half_edges();
    let n = half_edges.len();
    let mut points: Vec<Point2> = Vec::new();
    let mut i: usize = 0;
    while i < n
        invariant
            n == cycle.half_edges_spec().len(),
            half_edges@ == cycle.half_edges_spec(),
            i <= n,
            points@.len() == i,
            forall|j: int|
                0 <= j < i ==> geometry.vertex_position_spec(
                    #[trigger] cycle_vertex_id(cycle, j),
                    surface.id_spec(),
                ) == Option::Some(points@[j]),
            forall|j: int| 0 <= j < i ==> (#[trigger] points@[j]).bounded(),
        decreases n - i,
    {
        let half_edge = half_edges[i].get();
        let vertex = half_edge.0.start_vertex();
        match geometry.vertex_position(vertex, surface) {
            Option::Some(p) => {
                points.push(p);
            },
            Option::None => {
                proof {
                    assert(vertex.id_spec() == cycle_vertex_id(cycle, i as int));
                    assert(geometry.vertex_position_spec(
                        cycle_vertex_id(cycle, i as int),
                        surface.id_spec(),
                    ) is None);
                    assert(!cycle_positions_resolved(geometry, cycle, surface.id_spec()));
                }
                return Option::None;
            },
        }
        i = i + 1;
    }
    proof {
        assert(cycle_positions_resolved(geometry, cycle, surface.id_spec()));
        assert(points@ =~= cycle_positions_spec(geometry, cycle, surface.id_spec()));
    }
    winding_of(&points)
}

} // verus!
