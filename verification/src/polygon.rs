//! Polygons as closed chains of vertices.
//!
//! A polygon is bounded by vertex chains; on a chain every vertex
//! neighbors the one before it and the one after it, cyclically.

use vstd::prelude::*;

verus! {

/// A point in a polygon's plane.
#[derive(Clone, Copy, Debug, PartialEq, Eq, Structural)]
pub struct Pnt2 {
    /// The first coordinate.
    pub x: i64,
    /// The second coordinate.
    pub y: i64,
}

impl Pnt2 {
    /// Build a point from its two coordinates.
    pub fn new(x: i64, y: i64) -> (r: Pnt2)
        ensures
            r == (Pnt2 { x, y }),
    {
        Pnt2 { x, y }
    }
}

/// The position of the first occurrence of a vertex in a list, if any.
pub open spec fn first_occurrence(vertices: Seq<Pnt2>, vertex: Pnt2) -> Option<int>
    decreases vertices.len(),
{
    if vertices.len() == 0 {
        Option::None
    } else if vertices[0] == vertex {
        Option::Some(0)
    } else {
        match first_occurrence(vertices.skip(1), vertex) {
            Option::Some(i) => Option::Some(i + 1),
            Option::None => Option::None,
        }
    }
}

/// A position that carries the vertex, with no earlier position carrying
/// it, is the first occurrence.
proof fn lemma_first_occurrence_at(vertices: Seq<Pnt2>, vertex: Pnt2, i: int)
    requires
        0 <= i < vertices.len(),
        vertices[i] == vertex,
        forall|j: int| 0 <= j < i ==> vertices[j] != vertex,
    ensures
        first_occurrence(vertices, vertex) == Option::Some(i),
    decreases i,
{
    if i == 0 {
    } else {
        assert(vertices[0] != vertex);
        assert(vertices.skip(1)[i - 1] == vertices[i]);
        assert(forall|j: int| 0 <= j < i - 1 ==> #[trigger] vertices.skip(1)[j] == vertices[j + 1]);
        lemma_first_occurrence_at(vertices.skip(1), vertex, i - 1);
    }
}

/// A vertex that no position carries has no first occurrence.
proof fn lemma_first_occurrence_none(vertices: Seq<Pnt2>, vertex: Pnt2)
    requires
        forall|j: int| 0 <= j < vertices.len() ==> vertices[j] != vertex,
    ensures
        first_occurrence(vertices, vertex) is None,
    decreases vertices.len(),
{
    if vertices.len() > 0 {
        assert(forall|j: int|
            0 <= j < vertices.skip(1).len() ==> #[trigger] vertices.skip(1)[j] == vertices[j + 1]);
        lemma_first_occurrence_none(vertices.skip(1), vertex);
    }
}

/// The neighbors of a vertex on a closed chain: the vertices just before
/// and just after its first occurrence, cyclically.
pub open spec fn chain_neighbors(vertices: Seq<Pnt2>, vertex: Pnt2) -> Option<(Pnt2, Pnt2)> {
    match first_occurrence(vertices, vertex) {
        Option::Some(i) => {
            let n = vertices.len() as int;
            Option::Some(
                (
                    vertices[if i == 0 {
                        n - 1
                    } else {
                        i - 1
                    }],
                    vertices[if i + 1 == n {
                        0
                    } else {
                        i + 1
                    }],
                ),
            )
        },
        Option::None => Option::None,
    }
}

/// A closed chain of vertices.
#[derive(Debug)]
pub struct VertexChain {
    vertices: Vec<Pnt2>,
}

impl VertexChain {
    /// The vertices of the chain, in order.
    pub closed spec fn vertices_spec(&self) -> Seq<Pnt2> {
        self.vertices@
    }

    /// Build a chain from its vertices, in order.
    pub fn new(vertices: Vec<Pnt2>) -> (r: VertexChain)
        ensures
            r.vertices_spec() == vertices@,
    {
        VertexChain { vertices }
    }

    /// The two neighbors of a vertex, if the vertex is on the chain.
    pub fn neighbors_of(&self, vertex: Pnt2) -> (r: Option<(Pnt2, Pnt2)>)
        ensures
            r == chain_neighbors(self.vertices_spec(), vertex),
    {
        let n = self.vertices.len();
        let mut i: usize = 0;
        while i < n
            invariant
                n == self.vertices_spec().len(),
                i <= n,
                forall|j: int| 0 <= j < i ==> self.vertices_spec()[j] != vertex,
            decreases n - i,
        {
            if self.vertices[i] == vertex {
                proof {
                    lemma_first_occurrence_at(self.vertices_spec(), vertex, i as int);
                }
                let before: usize = if i == 0 {
                    n - 1
                } else {
                    i - 1
                };
                let after: usize = if i + 1 == n {
                    0
                } else {
                    i + 1
                };
                return Option::Some((self.vertices[before], self.vertices[after]));
            }
            i = i + 1;
        }
        proof {
            lemma_first_occurrence_none(self.vertices_spec(), vertex);
        }
        Option::None
    }
}

/// A polygon, bounded by vertex chains.
#[derive(Debug)]
pub struct Polygon {
    chains: Vec<VertexChain>,
}

impl Polygon {
    /// The polygon's vertex chains.
    pub closed spec fn chains_spec(&self) -> Seq<VertexChain> {
        self.chains@
    }

    /// A polygon with no chains yet.
    pub fn new() -> (r: Polygon)
        ensures
            r.chains_spec() == Seq::<VertexChain>::empty(),
    {
        Polygon { chains: Vec::new() }
    }

    /// Add a vertex chain to the polygon.
    pub fn insert_chain(&mut self, chain: VertexChain)
        ensures
            final(self).chains_spec() == old(self).chains_spec().push(chain),
    {
        self.chains.push(chain);
    }

    /// Access the polygon's vertices.
    pub fn vertices(&self) -> (r: Vertices<'_>)
        ensures
            r.0 == self,
    {
        Vertices(self)
    }
}

/// Returned by [`Polygon::vertices`]: read access to a polygon's
/// vertices.
pub struct Vertices<'r>(pub &'r Polygon);

/// The neighbors a query for a vertex yields, as a list without
/// duplicates.
pub open spec fn neighbor_list(neighbors: Option<(Pnt2, Pnt2)>) -> Seq<Pnt2> {
    match neighbors {
        Option::Some((a, b)) => if a == b {
            seq![a]
        } else {
            seq![a, b]
        },
        Option::None => Seq::empty(),
    }
}

impl<'r> Vertices<'r> {
    /// The distinct neighbors of a vertex on the polygon's single chain;
    /// the polygon must have exactly one chain.
    pub fn neighbors_of(&self, vertex: Pnt2) -> (r: Vec<Pnt2>)
        requires
            self.0.chains_spec().len() == 1,
        ensures
            r@ == neighbor_list(
                chain_neighbors(self.0.chains_spec()[0].vertices_spec(), vertex),
            ),
    {
        let chain = &self.0.chains[0];
        let mut out: Vec<Pnt2> = Vec::new();
        match chain.neighbors_of(vertex) {
            Option::Some(pair) => {
                out.push(pair.0);
                if pair.1 != pair.0 {
                    out.push(pair.1);
                    proof {
                        assert(out@ =~= seq![pair.0, pair.1]);
                    }
                } else {
                    proof {
                        assert(out@ =~= seq![pair.0]);
                    }
                }
            },
            Option::None => {
                proof {
                    assert(out@ =~= Seq::<Pnt2>::empty());
                }
            },
        }
        out
    }
}

} // verus!
