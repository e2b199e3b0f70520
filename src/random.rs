use vstd::prelude::*;
use crate::graph::{Graph, GrowthSample, Point};
use crate::input::Event;
use crate::session::{growths_before_quit, lemma_tick_grows, pending_growths, samples_fit, tick, TickOutcome};

verus! {

/// Relies on rand::Rng::gen_range on rand::thread_rng(): a value drawn from
/// `0..bound`, which is in that range; it panics when the range is empty.
#[verifier::external_body]
fn random_below(bound: usize) -> (r: usize)
    requires
        bound > 0,
    ensures
        r < bound,
{
    rand::Rng::gen_range(&mut rand::thread_rng(), 0..bound)
}

/// A random position on a `width` by `height` canvas.
pub fn random_point(width: i32, height: i32) -> (p: Point)
    requires
        width > 0,
        height > 0,
    ensures
        0 <= p.0 < width,
        0 <= p.1 < height,
{
    let x = random_below(width as usize);
    let y = random_below(height as usize);
    (x as i32, y as i32)
}

/// `n` random samples for consecutive growth steps from a graph of `base`
/// nodes on a `width` by `height` canvas: the `k`-th links to one of the
/// `base + k` nodes that exist by then.
pub fn draw_samples(width: i32, height: i32, base: usize, n: usize) -> (r: Vec<GrowthSample>)
    requires
        width > 0,
        height > 0,
        n == 0 || base > 0,
        base + n <= usize::MAX,
    ensures
        r@.len() == n,
        forall|k: int|
            0 <= k < n ==> {
                let s = #[trigger] r@[k];
                &&& 0 <= s.position.0 < width
                &&& 0 <= s.position.1 < height
                &&& s.target < base + k
            },
{
    let mut r: Vec<GrowthSample> = Vec::new();
    let mut k: usize = 0;
    while k < n
        invariant
            width > 0,
            height > 0,
            n == 0 || base > 0,
            base + n <= usize::MAX,
            k <= n,
            r@.len() == k,
            forall|j: int|
                0 <= j < k ==> {
                    let s = #[trigger] r@[j];
                    &&& 0 <= s.position.0 < width
                    &&& 0 <= s.position.1 < height
                    &&& s.target < base + j
                },
        decreases n - k,
    {
        let position = random_point(width, height);
        let target = random_below(base + k);
        r.push(GrowthSample { position, target });
        k = k + 1;
    }
    r
}

impl Graph {
    /// The seed graph on a `width` by `height` canvas: two nodes at random
    /// positions and the edge `(0, 1)` between them.
    pub fn new(width: i32, height: i32) -> (g: Graph)
        requires
            width > 0,
            height > 0,
        ensures
            g.wf(),
            g@.width == width,
            g@.height == height,
            g@.nodes.len() == 2,
            g@.edges == seq![(0usize, 1usize)],
    {
        let a = random_point(width, height);
        let b = random_point(width, height);
        Graph::with_seed(width, height, a, b)
    }

    /// Handles one tick's events in order, drawing a random position and a
    /// random existing target for each growth step; the first stop ends the
    /// tick. Whatever was drawn, the outcome is that of the tick with some
    /// samples that fit the graph.
    pub fn handle_events(&mut self, events: &Vec<Event>) -> (r: TickOutcome)
        requires
            old(self).wf(),
            growths_before_quit(events@) == 0 || old(self)@.nodes.len() > 0,
            old(self)@.nodes.len() + growths_before_quit(events@) <= usize::MAX,
        ensures
            final(self).wf(),
            final(self)@.extends(old(self)@),
            final(self)@.nodes.len() == old(self)@.nodes.len() + growths_before_quit(events@),
            final(self)@.edges.len() == old(self)@.edges.len() + growths_before_quit(events@),
            exists|s: Seq<GrowthSample>|
                {
                    &&& samples_fit(old(self)@, s)
                    &&& s.len() == growths_before_quit(events@)
                    &&& final(self)@ == (#[trigger] tick(old(self)@, events@, s)).graph
                    &&& r.ops@ == tick(old(self)@, events@, s).ops
                    &&& r.quit == tick(old(self)@, events@, s).quit
                },
    {
        let ghost g = self@;
        let n = pending_growths(events);
        let samples = draw_samples(self.width(), self.height(), self.node_count(), n);
        let r = self.handle_events_with(events, &samples);
        proof {
            lemma_tick_grows(g, events@, samples@);
            assert(samples_fit(g, samples@));
        }
        r
    }
}

} // verus!
