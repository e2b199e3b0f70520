use vstd::prelude::*;

verus! {

/// A node position on the canvas, `(x, y)`.
pub type Point = (i32, i32);

/// A directed edge `(source, target)` given by node indices.
pub type Edge = (usize, usize);

/// The values that one growth step draws at random: where the new node goes,
/// and which existing node it links to.
#[derive(Clone, Copy, Debug, PartialEq, Eq)]
pub struct GrowthSample {
    pub position: Point,
    pub target: usize,
}

/// The mathematical state of a graph on a fixed canvas.
pub struct GraphModel {
    pub width: int,
    pub height: int,
    pub nodes: Seq<Point>,
    pub edges: Seq<Edge>,
}

impl GraphModel {
    pub open spec fn in_bounds(self, p: Point) -> bool {
        0 <= p.0 < self.width && 0 <= p.1 < self.height
    }

    pub open spec fn edge_valid(self, e: Edge) -> bool {
        e.0 < self.nodes.len() && e.1 < self.nodes.len()
    }

    /// Positive canvas size, every node on the canvas, every edge between
    /// existing nodes.
    pub open spec fn wf(self) -> bool {
        &&& 0 < self.width <= i32::MAX
        &&& 0 < self.height <= i32::MAX
        &&& forall|i: int| 0 <= i < self.nodes.len() ==> #[trigger] self.in_bounds(self.nodes[i])
        &&& forall|j: int| 0 <= j < self.edges.len() ==> #[trigger] self.edge_valid(self.edges[j])
    }

    pub open spec fn with_node(self, p: Point) -> GraphModel {
        GraphModel { nodes: self.nodes.push(p), ..self }
    }

    pub open spec fn with_edge(self, e: Edge) -> GraphModel {
        GraphModel { edges: self.edges.push(e), ..self }
    }

    /// A sample that a growth step can use on this graph.
    pub open spec fn sample_fits(self, s: GrowthSample) -> bool {
        self.in_bounds(s.position) && s.target < self.nodes.len()
    }

    /// The graph after one growth step: the new node is appended, then the
    /// edge from it to the sampled target.
    pub open spec fn grown(self, s: GrowthSample) -> GraphModel {
        self.with_node(s.position).with_edge((self.nodes.len() as usize, s.target))
    }

    /// `self` holds `earlier` as a prefix, on the same canvas.
    pub open spec fn extends(self, earlier: GraphModel) -> bool {
        &&& self.width == earlier.width
        &&& self.height == earlier.height
        &&& earlier.nodes.len() <= self.nodes.len()
        &&& earlier.edges.len() <= self.edges.len()
        &&& self.nodes.take(earlier.nodes.len() as int) == earlier.nodes
        &&& self.edges.take(earlier.edges.len() as int) == earlier.edges
    }
}

/// A growth step keeps the graph well formed: the new node is on the canvas
/// and the new edge joins two nodes that exist once it is added.
pub proof fn lemma_grown_wf(g: GraphModel, s: GrowthSample)
    requires
        g.wf(),
        g.sample_fits(s),
    ensures
        g.grown(s).wf(),
{
    let h = g.grown(s);
    assert forall|i: int| 0 <= i < h.nodes.len() implies #[trigger] h.in_bounds(h.nodes[i]) by {
        if i < g.nodes.len() {
            assert(g.in_bounds(g.nodes[i]));
        }
    }
    assert forall|j: int| 0 <= j < h.edges.len() implies #[trigger] h.edge_valid(h.edges[j]) by {
        if j < g.edges.len() {
            assert(g.edge_valid(g.edges[j]));
        }
    }
}

/// A growth step adds exactly one node and one edge and keeps everything
/// that was there.
pub proof fn lemma_grown_extends(g: GraphModel, s: GrowthSample)
    ensures
        g.grown(s).extends(g),
        g.grown(s).nodes.len() == g.nodes.len() + 1,
        g.grown(s).edges.len() == g.edges.len() + 1,
{
    let h = g.grown(s);
    assert(h.nodes.take(g.nodes.len() as int) =~= g.nodes);
    assert(h.edges.take(g.edges.len() as int) =~= g.edges);
}

/// Growth is never undone: extension is transitive.
pub proof fn lemma_extends_trans(a: GraphModel, b: GraphModel, c: GraphModel)
    requires
        b.extends(a),
        c.extends(b),
    ensures
        c.extends(a),
{
    assert(c.nodes.take(a.nodes.len() as int) =~= c.nodes.take(b.nodes.len() as int).take(
        a.nodes.len() as int,
    ));
    assert(c.edges.take(a.edges.len() as int) =~= c.edges.take(b.edges.len() as int).take(
        a.edges.len() as int,
    ));
}

/// The node and edge lists of a graph on a fixed canvas.
pub struct Graph {
    width: i32,
    height: i32,
    nodes: Vec<Point>,
    edges: Vec<Edge>,
}

impl View for Graph {
    type V = GraphModel;

    closed spec fn view(&self) -> GraphModel {
        GraphModel {
            width: self.width as int,
            height: self.height as int,
            nodes: self.nodes@,
            edges: self.edges@,
        }
    }
}

impl Graph {
    pub open spec fn wf(&self) -> bool {
        self@.wf()
    }

    /// A graph with no nodes on a `width` by `height` canvas.
    pub fn empty(width: i32, height: i32) -> (g: Graph)
        requires
            width > 0,
            height > 0,
        ensures
            g.wf(),
            g@.width == width,
            g@.height == height,
            g@.nodes.len() == 0,
            g@.edges.len() == 0,
    {
        Graph { width, height, nodes: Vec::new(), edges: Vec::new() }
    }

    /// The seed graph: nodes `a` and `b`, and the edge `(0, 1)` between them.
    pub fn with_seed(width: i32, height: i32, a: Point, b: Point) -> (g: Graph)
        requires
            width > 0,
            height > 0,
            0 <= a.0 < width && 0 <= a.1 < height,
            0 <= b.0 < width && 0 <= b.1 < height,
        ensures
            g.wf(),
            g@.width == width,
            g@.height == height,
            g@.nodes == seq![a, b],
            g@.edges == seq![(0usize, 1usize)],
    {
        let mut g = Graph::empty(width, height);
        g.add_node(a);
        g.add_node(b);
        g.add_edge(0, 1);
        assert(g@.nodes =~= seq![a, b]);
        assert(g@.edges =~= seq![(0usize, 1usize)]);
        g
    }

    /// Appends a node and returns its index, the former node count.
    pub fn add_node(&mut self, p: Point) -> (r: usize)
        requires
            old(self).wf(),
            old(self)@.in_bounds(p),
        ensures
            final(self).wf(),
            final(self)@ == old(self)@.with_node(p),
            r == old(self)@.nodes.len(),
    {
        let r = self.nodes.len();
        self.nodes.push(p);
        let ghost g = self@;
        assert forall|j: int| 0 <= j < g.edges.len() implies #[trigger] g.edge_valid(
            g.edges[j],
        ) by {
            assert(old(self)@.edge_valid(old(self)@.edges[j]));
        }
        assert forall|i: int| 0 <= i < g.nodes.len() implies #[trigger] g.in_bounds(
            g.nodes[i],
        ) by {
            if i < r {
                assert(old(self)@.in_bounds(old(self)@.nodes[i]));
            }
        }
        r
    }

    /// Appends the edge `(a, b)`; both must name existing nodes.
    pub fn add_edge(&mut self, a: usize, b: usize)
        requires
            old(self).wf(),
            a < old(self)@.nodes.len(),
            b < old(self)@.nodes.len(),
        ensures
            final(self).wf(),
            final(self)@ == old(self)@.with_edge((a, b)),
    {
        self.edges.push((a, b));
        let ghost g = self@;
        assert forall|j: int| 0 <= j < g.edges.len() implies #[trigger] g.edge_valid(
            g.edges[j],
        ) by {
            if j < old(self)@.edges.len() {
                assert(old(self)@.edge_valid(g.edges[j]));
            }
        }
        assert forall|i: int| 0 <= i < g.nodes.len() implies #[trigger] g.in_bounds(
            g.nodes[i],
        ) by {
            assert(old(self)@.in_bounds(old(self)@.nodes[i]));
        }
    }

    /// One growth step with the given sample: appends the node at
    /// `s.position`, then the edge from it to `s.target`. Returns the new
    /// node's index.
    pub fn grow(&mut self, s: GrowthSample) -> (r: usize)
        requires
            old(self).wf(),
            old(self)@.sample_fits(s),
        ensures
            final(self).wf(),
            final(self)@ == old(self)@.grown(s),
            r == old(self)@.nodes.len(),
    {
        let r = self.add_node(s.position);
        self.add_edge(r, s.target);
        r
    }

    pub fn width(&self) -> (r: i32)
        ensures
            r == self@.width,
    {
        self.width
    }

    pub fn height(&self) -> (r: i32)
        ensures
            r == self@.height,
    {
        self.height
    }

    /// The nodes in insertion order.
    pub fn nodes(&self) -> (r: &Vec<Point>)
        ensures
            r@ == self@.nodes,
    {
        &self.nodes
    }

    /// The edges in insertion order.
    pub fn edges(&self) -> (r: &Vec<Edge>)
        ensures
            r@ == self@.edges,
    {
        &self.edges
    }

    pub fn node_count(&self) -> (r: usize)
        ensures
            r == self@.nodes.len(),
    {
        self.nodes.len()
    }

    pub fn edge_count(&self) -> (r: usize)
        ensures
            r == self@.edges.len(),
    {
        self.edges.len()
    }
}

} // verus!
