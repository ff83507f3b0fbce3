//! Topological object kinds.
//!
//! Objects reference each other exclusively via handles, forming a graph:
//! some edges permit arbitrary many-to-many sharing (shared curves and
//! surfaces), while others are exclusive-ownership edges whose violation
//! the validation checks detect. The objects themselves are immutable;
//! changing topology means building a new object and storing it anew.

use crate::storage::{Handle, Store};
use vstd::prelude::*;

verus! {

/// A curve: pure identity, its geometry lives in the geometry layer.
#[derive(Debug)]
pub struct Curve {}

impl Curve {
    /// Build a curve.
    pub fn new() -> (r: Curve) {
        Curve {  }
    }
}

/// A surface: pure identity, its geometry lives in the geometry layer.
#[derive(Debug)]
pub struct Surface {}

impl Surface {
    /// Build a surface.
    pub fn new() -> (r: Surface) {
        Surface {  }
    }
}

/// A vertex: pure identity, its geometry lives in the geometry layer.
#[derive(Debug)]
pub struct Vertex {}

impl Vertex {
    /// Build a vertex.
    pub fn new() -> (r: Vertex) {
        Vertex {  }
    }
}

/// A directed edge, bounded by its start vertex and lying on a curve.
#[derive(Debug)]
pub struct HalfEdge {
    start_vertex: Handle<Vertex>,
    curve: Handle<Curve>,
}

impl HalfEdge {
    /// The vertex this half-edge starts at.
    pub closed spec fn start_vertex_spec(&self) -> Handle<Vertex> {
        self.start_vertex
    }

    /// The curve this half-edge lies on.
    pub closed spec fn curve_spec(&self) -> Handle<Curve> {
        self.curve
    }

    /// Build a half-edge from its start vertex and curve.
    pub fn new(start_vertex: Handle<Vertex>, curve: Handle<Curve>) -> (r: HalfEdge)
        ensures
            r.start_vertex_spec() == start_vertex,
            r.curve_spec() == curve,
    {
        HalfEdge { start_vertex, curve }
    }

    /// Access the start vertex.
    pub fn start_vertex(&self) -> (r: &Handle<Vertex>)
        ensures
            *r == self.start_vertex_spec(),
    {
        &self.start_vertex
    }

    /// Access the curve.
    pub fn curve(&self) -> (r: &Handle<Curve>)
        ensures
            *r == self.curve_spec(),
    {
        &self.curve
    }
}

/// A closed boundary: an ordered list of half-edges.
#[derive(Debug)]
pub struct Cycle {
    half_edges: Vec<Handle<HalfEdge>>,
}

impl Cycle {
    /// The half-edges that make up the cycle, in order.
    pub closed spec fn half_edges_spec(&self) -> Seq<Handle<HalfEdge>> {
        self.half_edges@
    }

    /// Build a cycle from its half-edges.
    pub fn new(half_edges: Vec<Handle<HalfEdge>>) -> (r: Cycle)
        ensures
            r.half_edges_spec() == half_edges@,
    {
        Cycle { half_edges }
    }

    /// Access the half-edges, in order.
    pub fn half_edges(&self) -> (r: &Vec<Handle<HalfEdge>>)
        ensures
            r@ == self.half_edges_spec(),
    {
        &self.half_edges
    }
}

/// A two-dimensional area: one exterior boundary cycle plus any number of
/// interior (hole) cycles.
#[derive(Debug)]
pub struct Region {
    exterior: Handle<Cycle>,
    interiors: Vec<Handle<Cycle>>,
}

impl Region {
    /// The exterior boundary cycle.
    pub closed spec fn exterior_spec(&self) -> Handle<Cycle> {
        self.exterior
    }

    /// The interior (hole) cycles, in order.
    pub closed spec fn interiors_spec(&self) -> Seq<Handle<Cycle>> {
        self.interiors@
    }

    /// Every bounding cycle: the exterior first, then the interiors.
    pub open spec fn cycles_spec(&self) -> Seq<Handle<Cycle>> {
        seq![self.exterior_spec()] + self.interiors_spec()
    }

    /// Build a region from its exterior and interior cycles.
    pub fn new(exterior: Handle<Cycle>, interiors: Vec<Handle<Cycle>>) -> (r: Region)
        ensures
            r.exterior_spec() == exterior,
            r.interiors_spec() == interiors@,
    {
        Region { exterior, interiors }
    }

    /// Access the exterior cycle.
    pub fn exterior(&self) -> (r: &Handle<Cycle>)
        ensures
            *r == self.exterior_spec(),
    {
        &self.exterior
    }

    /// Access the interior cycles, in order.
    pub fn interiors(&self) -> (r: &Vec<Handle<Cycle>>)
        ensures
            r@ == self.interiors_spec(),
    {
        &self.interiors
    }

    /// Collect every bounding cycle, the exterior first.
    pub fn all_cycles(&self) -> (r: Vec<Handle<Cycle>>)
        ensures
            r@ == self.cycles_spec(),
    {
        let mut out: Vec<Handle<Cycle>> = Vec::new();
        out.push(self.exterior.clone());
        let n = self.interiors.len();
        let mut i: usize = 0;
        while i < n
            invariant
                n == self.interiors_spec().len(),
                i <= n,
                out@.len() == i + 1,
                out@[0] == self.exterior_spec(),
                forall|j: int| 0 <= j < i ==> out@[j + 1] == self.interiors_spec()[j],
            decreases n - i,
        {
            out.push(self.interiors[i].clone());
            i = i + 1;
        }
        proof {
            assert(out@ =~= self.cycles_spec());
        }
        out
    }
}

/// A bounded area of a surface: the face's region, on that surface.
#[derive(Debug)]
pub struct Face {
    surface: Handle<Surface>,
    region: Handle<Region>,
}

impl Face {
    /// The surface the face lies on.
    pub closed spec fn surface_spec(&self) -> Handle<Surface> {
        self.surface
    }

    /// The region bounding the face.
    pub closed spec fn region_spec(&self) -> Handle<Region> {
        self.region
    }

    /// Build a face from its surface and region.
    pub fn new(surface: Handle<Surface>, region: Handle<Region>) -> (r: Face)
        ensures
            r.surface_spec() == surface,
            r.region_spec() == region,
    {
        Face { surface, region }
    }

    /// Access the surface.
    pub fn surface(&self) -> (r: &Handle<Surface>)
        ensures
            *r == self.surface_spec(),
    {
        &self.surface
    }

    /// Access the region.
    pub fn region(&self) -> (r: &Handle<Region>)
        ensures
            *r == self.region_spec(),
    {
        &self.region
    }
}

/// A closed assembly of faces, bounding a volume.
#[derive(Debug)]
pub struct Shell {
    faces: Vec<Handle<Face>>,
}

impl Shell {
    /// The faces of the shell.
    pub closed spec fn faces_spec(&self) -> Seq<Handle<Face>> {
        self.faces@
    }

    /// Build a shell from its faces.
    pub fn new(faces: Vec<Handle<Face>>) -> (r: Shell)
        ensures
            r.faces_spec() == faces@,
    {
        Shell { faces }
    }

    /// Access the faces.
    pub fn faces(&self) -> (r: &Vec<Handle<Face>>)
        ensures
            r@ == self.faces_spec(),
    {
        &self.faces
    }
}

/// A two-dimensional model: a set of regions in a common plane.
#[derive(Debug)]
pub struct Sketch {
    regions: Vec<Handle<Region>>,
}

impl Sketch {
    /// The regions of the sketch.
    pub closed spec fn regions_spec(&self) -> Seq<Handle<Region>> {
        self.regions@
    }

    /// Build a sketch from its regions.
    pub fn new(regions: Vec<Handle<Region>>) -> (r: Sketch)
        ensures
            r.regions_spec() == regions@,
    {
        Sketch { regions }
    }

    /// Access the regions.
    pub fn regions(&self) -> (r: &Vec<Handle<Region>>)
        ensures
            r@ == self.regions_spec(),
    {
        &self.regions
    }
}

/// A three-dimensional model: a set of shells.
#[derive(Debug)]
pub struct Solid {
    shells: Vec<Handle<Shell>>,
}

impl Solid {
    /// The shells of the solid.
    pub closed spec fn shells_spec(&self) -> Seq<Handle<Shell>> {
        self.shells@
    }

    /// Build a solid from its shells.
    pub fn new(shells: Vec<Handle<Shell>>) -> (r: Solid)
        ensures
            r.shells_spec() == shells@,
    {
        Solid { shells }
    }

    /// Access the shells.
    pub fn shells(&self) -> (r: &Vec<Handle<Shell>>)
        ensures
            r@ == self.shells_spec(),
    {
        &self.shells
    }
}

/// A stored object of any validatable kind, as handed to the validation
/// layer.
#[derive(Debug)]
pub enum AnyObject {
    /// A stored face.
    Face(Handle<Face>),
    /// A stored sketch.
    Sketch(Handle<Sketch>),
    /// A stored solid.
    Solid(Handle<Solid>),
}

impl AnyObject {
    /// The identity of the stored object this refers to.
    pub open spec fn id_spec(&self) -> u64 {
        match self {
            AnyObject::Face(h) => h.id_spec(),
            AnyObject::Sketch(h) => h.id_spec(),
            AnyObject::Solid(h) => h.id_spec(),
        }
    }

    /// Read the identity of the stored object.
    pub fn id(&self) -> (r: u64)
        ensures
            r == self.id_spec(),
    {
        match self {
            AnyObject::Face(h) => h.id(),
            AnyObject::Sketch(h) => h.id(),
            AnyObject::Solid(h) => h.id(),
        }
    }
}

impl Clone for AnyObject {
    /// A clone refers to the same stored object.
    fn clone(&self) -> (r: Self)
        ensures
            r == *self,
    {
        match self {
            AnyObject::Face(h) => AnyObject::Face(h.clone()),
            AnyObject::Sketch(h) => AnyObject::Sketch(h.clone()),
            AnyObject::Solid(h) => AnyObject::Solid(h.clone()),
        }
    }
}

/// The objects every kernel instance starts from: the special surfaces
/// that carry two-dimensional space and the three basis planes. They are
/// four distinct stored objects.
pub struct Topology {
    space_2d: Handle<Surface>,
    xy_plane: Handle<Surface>,
    xz_plane: Handle<Surface>,
    yz_plane: Handle<Surface>,
}

impl Topology {
    /// The four special surfaces are pairwise distinct cells; Verus
    /// maintains this as a type invariant.
    #[verifier::type_invariant]
    pub open spec fn wf(self) -> bool {
        &&& !self.space_2d_spec().same_cell(&self.xy_plane_spec())
        &&& !self.space_2d_spec().same_cell(&self.xz_plane_spec())
        &&& !self.space_2d_spec().same_cell(&self.yz_plane_spec())
        &&& !self.xy_plane_spec().same_cell(&self.xz_plane_spec())
        &&& !self.xy_plane_spec().same_cell(&self.yz_plane_spec())
        &&& !self.xz_plane_spec().same_cell(&self.yz_plane_spec())
    }

    /// The surface that stands for two-dimensional space.
    pub closed spec fn space_2d_spec(&self) -> Handle<Surface> {
        self.space_2d
    }

    /// The xy basis plane's surface.
    pub closed spec fn xy_plane_spec(&self) -> Handle<Surface> {
        self.xy_plane
    }

    /// The xz basis plane's surface.
    pub closed spec fn xz_plane_spec(&self) -> Handle<Surface> {
        self.xz_plane
    }

    /// The yz basis plane's surface.
    pub closed spec fn yz_plane_spec(&self) -> Handle<Surface> {
        self.yz_plane
    }

    /// Store the special surfaces, each in a cell of its own.
    pub fn new(store: &mut Store) -> (r: Topology)
        requires
            old(store).next_id_spec() <= u64::MAX - 4,
        ensures
            final(store).next_id_spec() == old(store).next_id_spec() + 4,
            r.wf(),
    {
        let space_2d = store.insert(Surface::new());
        let xy_plane = store.insert(Surface::new());
        let xz_plane = store.insert(Surface::new());
        let yz_plane = store.insert(Surface::new());
        Topology { space_2d, xy_plane, xz_plane, yz_plane }
    }

    /// Access the surface that stands for two-dimensional space.
    pub fn space_2d(&self) -> (r: Handle<Surface>)
        ensures
            r == self.space_2d_spec(),
    {
        self.space_2d.clone()
    }

    /// Access the xy basis plane's surface.
    pub fn xy_plane(&self) -> (r: Handle<Surface>)
        ensures
            r == self.xy_plane_spec(),
    {
        self.xy_plane.clone()
    }

    /// Access the xz basis plane's surface.
    pub fn xz_plane(&self) -> (r: Handle<Surface>)
        ensures
            r == self.xz_plane_spec(),
    {
        self.xz_plane.clone()
    }

    /// Access the yz basis plane's surface.
    pub fn yz_plane(&self) -> (r: Handle<Surface>)
        ensures
            r == self.yz_plane_spec(),
    {
        self.yz_plane.clone()
    }
}

} // verus!
