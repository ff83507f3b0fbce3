//! Geometry lookup, polygons and plane conversions.

use fj_core::geometry::{
    winding_of, CurveGeom, Geometry, GlobalPath, LocalCurveGeom, LocalVertexGeom, SurfaceGeom,
    SurfacePath, Winding,
};
use fj_core::math::{Point2, Point3, Vector2, Vector3};
use fj_core::plane::Plane;
use fj_core::polygon::{Pnt2, Polygon, VertexChain};
use fj_core::storage::Store;
use fj_core::topology::{Curve, Surface, Topology, Vertex};

#[test]
fn neighbors_of_should_return_neighbors_of_vertex() {
    let mut polygon = Polygon::new();

    let a = Pnt2::new(0, 0);
    let b = Pnt2::new(1, 0);
    let c = Pnt2::new(0, 1);
    polygon.insert_chain(VertexChain::new(vec![a, b, c]));

    let neighbors_of_a = polygon.vertices().neighbors_of(a);
    let neighbors_of_b = polygon.vertices().neighbors_of(b);
    let neighbors_of_c = polygon.vertices().neighbors_of(c);

    assert!(neighbors_of_a.contains(&b));
    assert!(neighbors_of_a.contains(&c));

    assert!(neighbors_of_b.contains(&a));
    assert!(neighbors_of_b.contains(&c));

    assert!(neighbors_of_c.contains(&a));
    assert!(neighbors_of_c.contains(&b));
}

#[test]
fn test_surface_to_model_point_conversion() {
    let plane = Plane {
        origin: Point3::new(1, 2, 3),
        u: Vector3::new(0, 1, 0),
        v: Vector3::new(0, 0, 1),
    };

    assert_eq!(plane.point_surface_to_model(&Point2::new(2, 4)), Point3::new(1, 4, 7));
}

#[test]
fn test_surface_to_model_vector_conversion() {
    let plane = Plane {
        origin: Point3::new(1, 2, 3),
        u: Vector3::new(0, 1, 0),
        v: Vector3::new(0, 0, 1),
    };

    assert_eq!(plane.vector_surface_to_model(&Vector2::new(2, 4)), Vector3::new(0, 2, 4));
}

#[test]
fn winding_follows_signed_area() {
    let ccw = vec![
        Point2::new(0, 0),
        Point2::new(10, 0),
        Point2::new(10, 10),
        Point2::new(0, 10),
    ];
    assert!(matches!(winding_of(&ccw), Some(Winding::Ccw)));

    let cw = vec![
        Point2::new(0, 10),
        Point2::new(10, 10),
        Point2::new(10, 0),
        Point2::new(0, 0),
    ];
    assert!(matches!(winding_of(&cw), Some(Winding::Cw)));

    // A degenerate polygon has no winding.
    let line = vec![Point2::new(0, 0), Point2::new(10, 0)];
    assert!(winding_of(&line).is_none());
    let empty: Vec<Point2> = vec![];
    assert!(winding_of(&empty).is_none());
}

#[test]
fn basis_planes_are_predefined() {
    let mut store = Store::new();
    let topology = Topology::new(&mut store);
    let geometry = Geometry::new(&topology);

    assert_eq!(
        *geometry.xy_plane(),
        SurfaceGeom { u: GlobalPath::x_axis(), v: Vector3::new(0, 1, 0) },
    );
    assert_eq!(
        *geometry.xz_plane(),
        SurfaceGeom { u: GlobalPath::x_axis(), v: Vector3::new(0, 0, 1) },
    );
    assert_eq!(
        *geometry.yz_plane(),
        SurfaceGeom { u: GlobalPath::y_axis(), v: Vector3::new(0, 0, 1) },
    );
}

#[test]
fn defined_geometry_resolves_and_absent_geometry_does_not() {
    let mut store = Store::new();
    let topology = Topology::new(&mut store);
    let mut geometry = Geometry::new(&topology);
    let surface = store.insert(Surface::new());
    let curve = store.insert(Curve::new());
    let vertex = store.insert(Vertex::new());

    assert!(geometry.of_curve(&curve).is_none());
    assert!(geometry.of_vertex(&vertex).is_none());

    let path = LocalCurveGeom {
        path: SurfacePath::Line { origin: Point2::new(0, 0), direction: Vector2::new(1, 0) },
    };
    geometry.define_curve_inner(curve.clone(), surface.clone(), path);
    let curve_geom: &CurveGeom = geometry.of_curve(&curve).expect("curve geometry was defined");
    assert_eq!(*curve_geom.local_on(&surface).expect("defined on this surface"), path);

    geometry.define_vertex_inner(
        vertex.clone(),
        surface.clone(),
        LocalVertexGeom::new(Point2::new(3, 4)),
    );
    let vertex_geom = geometry.of_vertex(&vertex).expect("vertex geometry was defined");
    assert_eq!(
        vertex_geom.local_on(&surface).expect("defined on this surface").position(),
        Point2::new(3, 4),
    );

    geometry.define_surface_inner(
        surface.clone(),
        SurfaceGeom { u: GlobalPath::x_axis(), v: Vector3::new(0, 1, 0) },
    );
    assert_eq!(
        *geometry.of_surface(&surface),
        SurfaceGeom { u: GlobalPath::x_axis(), v: Vector3::new(0, 1, 0) },
    );
}
