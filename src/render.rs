use vstd::prelude::*;
use crate::graph::{Edge, Graph, GraphModel, Point};

verus! {

/// Radius of the circle drawn for each node.
pub const NODE_RADIUS: i32 = 8;

#[derive(Clone, Copy, Debug, PartialEq, Eq)]
pub enum Color {
    White,
    Black,
}

/// One call on the drawing surface.
#[derive(Clone, Copy, Debug, PartialEq, Eq)]
pub enum DrawOp {
    Clear(Color),
    Line { from: Point, to: Point, color: Color },
    Circle { center: Point, radius: i32, color: Color },
    Present,
}

/// The line drawn for edge `e`, between the positions of its two nodes.
pub open spec fn edge_line(nodes: Seq<Point>, e: Edge) -> DrawOp {
    DrawOp::Line { from: nodes[e.0 as int], to: nodes[e.1 as int], color: Color::Black }
}

/// The circle drawn for a node at `p`.
pub open spec fn node_circle(p: Point) -> DrawOp {
    DrawOp::Circle { center: p, radius: NODE_RADIUS, color: Color::Black }
}

pub open spec fn edge_lines(g: GraphModel) -> Seq<DrawOp> {
    g.edges.map_values(|e: Edge| edge_line(g.nodes, e))
}

pub open spec fn node_circles(g: GraphModel) -> Seq<DrawOp> {
    g.nodes.map_values(|p: Point| node_circle(p))
}

/// A full redraw: clear to white, every edge, then every node on top, then
/// present.
pub open spec fn redraw_ops(g: GraphModel) -> Seq<DrawOp> {
    seq![DrawOp::Clear(Color::White)] + edge_lines(g) + node_circles(g) + seq![DrawOp::Present]
}

/// What a growth step draws on top of the current frame: the circle of the
/// newest node, the line of the newest edge, then present.
pub open spec fn growth_ops(g: GraphModel) -> Seq<DrawOp> {
    seq![node_circle(g.nodes.last()), edge_line(g.nodes, g.edges.last()), DrawOp::Present]
}

/// Drawing is a function of the graph alone: two full redraws of one graph
/// issue the same operations.
pub proof fn lemma_redraw_idempotent(g: GraphModel, h: GraphModel)
    requires
        g == h,
    ensures
        redraw_ops(g) == redraw_ops(h),
{
}

/// The line for edge `e` of `nodes`.
pub fn edge_line_op(nodes: &Vec<Point>, e: Edge) -> (r: DrawOp)
    requires
        e.0 < nodes@.len(),
        e.1 < nodes@.len(),
    ensures
        r == edge_line(nodes@, e),
{
    DrawOp::Line { from: nodes[e.0], to: nodes[e.1], color: Color::Black }
}

/// The circle for a node at `p`.
pub fn node_circle_op(p: Point) -> (r: DrawOp)
    ensures
        r == node_circle(p),
{
    DrawOp::Circle { center: p, radius: NODE_RADIUS, color: Color::Black }
}

impl Graph {
    /// Appends the line of every edge, in order, to `ops`.
    pub fn push_edge_lines(&self, ops: &mut Vec<DrawOp>)
        requires
            self.wf(),
        ensures
            final(ops)@ == old(ops)@ + edge_lines(self@),
    {
        let nodes = self.nodes();
        let edges = self.edges();
        let ghost start = ops@;
        let mut i: usize = 0;
        while i < edges.len()
            invariant
                self.wf(),
                nodes@ == self@.nodes,
                edges@ == self@.edges,
                i <= edges@.len(),
                ops@ == start + edge_lines(self@).take(i as int),
            decreases edges@.len() - i,
        {
            assert(self@.edge_valid(self@.edges[i as int]));
            let op = edge_line_op(nodes, edges[i]);
            ops.push(op);
            assert(edge_lines(self@).take(i + 1) =~= edge_lines(self@).take(i as int).push(op));
            i = i + 1;
        }
        assert(edge_lines(self@).take(i as int) =~= edge_lines(self@));
    }

    /// Appends the circle of every node, in order, to `ops`.
    pub fn push_node_circles(&self, ops: &mut Vec<DrawOp>)
        ensures
            final(ops)@ == old(ops)@ + node_circles(self@),
    {
        let nodes = self.nodes();
        let ghost start = ops@;
        let mut i: usize = 0;
        while i < nodes.len()
            invariant
                nodes@ == self@.nodes,
                i <= nodes@.len(),
                ops@ == start + node_circles(self@).take(i as int),
            decreases nodes@.len() - i,
        {
            let op = node_circle_op(nodes[i]);
            ops.push(op);
            assert(node_circles(self@).take(i + 1) =~= node_circles(self@).take(i as int).push(
                op,
            ));
            i = i + 1;
        }
        assert(node_circles(self@).take(i as int) =~= node_circles(self@));
    }

    /// The operations of a full redraw of the graph.
    pub fn full_redraw(&self) -> (r: Vec<DrawOp>)
        requires
            self.wf(),
        ensures
            r@ == redraw_ops(self@),
    {
        let mut ops: Vec<DrawOp> = Vec::new();
        ops.push(DrawOp::Clear(Color::White));
        self.push_edge_lines(&mut ops);
        self.push_node_circles(&mut ops);
        ops.push(DrawOp::Present);
        assert(ops@ =~= redraw_ops(self@));
        ops
    }

    /// The operations that show the newest node and edge on top of the
    /// current frame.
    pub fn growth_draw(&self) -> (r: Vec<DrawOp>)
        requires
            self.wf(),
            self@.nodes.len() > 0,
            self@.edges.len() > 0,
        ensures
            r@ == growth_ops(self@),
    {
        let nodes = self.nodes();
        let edges = self.edges();
        let last_edge = edges[edges.len() - 1];
        assert(self@.edge_valid(self@.edges[self@.edges.len() - 1]));
        let mut ops: Vec<DrawOp> = Vec::new();
        ops.push(node_circle_op(nodes[nodes.len() - 1]));
        ops.push(edge_line_op(nodes, last_edge));
        ops.push(DrawOp::Present);
        assert(ops@ =~= growth_ops(self@));
        ops
    }
}

} // verus!
