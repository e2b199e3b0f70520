use vstd::prelude::*;
use crate::graph::{lemma_extends_trans, lemma_grown_extends, lemma_grown_wf, Graph, GraphModel, GrowthSample};
use crate::input::{classify, command_of, Command, Event};
use crate::render::{growth_ops, DrawOp};

verus! {

/// The state of one tick after some of its events: the graph, the draw
/// operations issued so far, whether the loop must stop, and how many
/// samples the growth steps have taken.
pub struct TickModel {
    pub graph: GraphModel,
    pub ops: Seq<DrawOp>,
    pub quit: bool,
    pub used: nat,
}

/// The tick after its first `i` events. Once the loop must stop, later
/// events change nothing; each growth step takes the next sample and draws
/// the new node and edge.
pub open spec fn tick_prefix(
    g: GraphModel,
    events: Seq<Event>,
    samples: Seq<GrowthSample>,
    i: nat,
) -> TickModel
    decreases i,
{
    if i == 0 {
        TickModel { graph: g, ops: seq![], quit: false, used: 0 }
    } else {
        let p = tick_prefix(g, events, samples, (i - 1) as nat);
        if p.quit {
            p
        } else {
            match command_of(events[i - 1]) {
                Command::Quit => TickModel { quit: true, ..p },
                Command::Grow => {
                    let h = p.graph.grown(samples[p.used as int]);
                    TickModel { graph: h, ops: p.ops + growth_ops(h), quit: false, used: p.used + 1 }
                },
                Command::Ignore => p,
            }
        }
    }
}

/// The outcome of a tick that handles all of `events`.
pub open spec fn tick(g: GraphModel, events: Seq<Event>, samples: Seq<GrowthSample>) -> TickModel {
    tick_prefix(g, events, samples, events.len())
}

/// Among the first `i` events: how many growth steps come before the first
/// stop, and whether there is a stop.
pub open spec fn growth_prefix(events: Seq<Event>, i: nat) -> (nat, bool)
    decreases i,
{
    if i == 0 {
        (0, false)
    } else {
        let p = growth_prefix(events, (i - 1) as nat);
        if p.1 {
            p
        } else {
            match command_of(events[i - 1]) {
                Command::Quit => (p.0, true),
                Command::Grow => (p.0 + 1, false),
                Command::Ignore => p,
            }
        }
    }
}

/// The number of growth steps that `events` ask for before the first stop.
pub open spec fn growths_before_quit(events: Seq<Event>) -> nat {
    growth_prefix(events, events.len()).0
}

/// Sample `k` can serve the `k`-th growth step from `g`: its position is on
/// the canvas and its target names one of the nodes that exist by then.
pub open spec fn samples_fit(g: GraphModel, samples: Seq<GrowthSample>) -> bool {
    forall|k: int|
        0 <= k < samples.len() ==> g.in_bounds(#[trigger] samples[k].position)
            && samples[k].target < g.nodes.len() + k
}

proof fn lemma_growth_prefix_mono(events: Seq<Event>, i: nat, j: nat)
    requires
        i <= j,
    ensures
        growth_prefix(events, i).0 <= growth_prefix(events, j).0,
    decreases j - i,
{
    if i < j {
        lemma_growth_prefix_mono(events, i, (j - 1) as nat);
    }
}

proof fn lemma_tick_prefix_shape(g: GraphModel, events: Seq<Event>, samples: Seq<GrowthSample>, i: nat)
    requires
        g.wf(),
        samples_fit(g, samples),
        growths_before_quit(events) <= samples.len(),
        i <= events.len(),
    ensures
        tick_prefix(g, events, samples, i).used == growth_prefix(events, i).0,
        tick_prefix(g, events, samples, i).quit == growth_prefix(events, i).1,
        tick_prefix(g, events, samples, i).graph.wf(),
        tick_prefix(g, events, samples, i).graph.extends(g),
        tick_prefix(g, events, samples, i).graph.nodes.len() == g.nodes.len() + growth_prefix(
            events,
            i,
        ).0,
        tick_prefix(g, events, samples, i).graph.edges.len() == g.edges.len() + growth_prefix(
            events,
            i,
        ).0,
    decreases i,
{
    if i == 0 {
        assert(g.nodes.take(g.nodes.len() as int) =~= g.nodes);
        assert(g.edges.take(g.edges.len() as int) =~= g.edges);
    } else {
        lemma_tick_prefix_shape(g, events, samples, (i - 1) as nat);
        let p = tick_prefix(g, events, samples, (i - 1) as nat);
        if !p.quit && command_of(events[i - 1]) == Command::Grow {
            lemma_growth_prefix_mono(events, i, events.len());
            let s = samples[p.used as int];
            assert(p.graph.sample_fits(s));
            lemma_grown_wf(p.graph, s);
            lemma_grown_extends(p.graph, s);
            lemma_extends_trans(g, p.graph, p.graph.grown(s));
        }
    }
}

proof fn lemma_quit_stays(g: GraphModel, events: Seq<Event>, samples: Seq<GrowthSample>, i: nat, j: nat)
    requires
        i <= j,
        tick_prefix(g, events, samples, i).quit,
    ensures
        tick_prefix(g, events, samples, j) == tick_prefix(g, events, samples, i),
    decreases j - i,
{
    if i < j {
        lemma_quit_stays(g, events, samples, i, (j - 1) as nat);
    }
}

/// A tick never shrinks the graph: it keeps every node and edge, adds
/// exactly one node and one edge per growth step before the first stop, and
/// leaves the graph well formed (nodes on the canvas, edges between existing
/// nodes).
pub proof fn lemma_tick_grows(g: GraphModel, events: Seq<Event>, samples: Seq<GrowthSample>)
    requires
        g.wf(),
        samples_fit(g, samples),
        growths_before_quit(events) <= samples.len(),
    ensures
        tick(g, events, samples).graph.wf(),
        tick(g, events, samples).graph.extends(g),
        tick(g, events, samples).graph.nodes.len() == g.nodes.len() + growths_before_quit(events),
        tick(g, events, samples).graph.edges.len() == g.edges.len() + growths_before_quit(events),
{
    lemma_tick_prefix_shape(g, events, samples, events.len());
}

/// With the same samples, a tick from the same graph produces the same
/// graph and the same draw operations.
pub proof fn lemma_tick_deterministic(
    g: GraphModel,
    h: GraphModel,
    events: Seq<Event>,
    samples: Seq<GrowthSample>,
)
    requires
        g == h,
    ensures
        tick(g, events, samples) == tick(h, events, samples),
{
}

/// What one tick did: whether the loop must stop, and the draw operations to
/// perform, in order.
pub struct TickOutcome {
    pub quit: bool,
    pub ops: Vec<DrawOp>,
}

/// The number of growth steps that `events` ask for before the first stop.
pub fn pending_growths(events: &Vec<Event>) -> (r: usize)
    ensures
        r == growths_before_quit(events@),
{
    let mut count: usize = 0;
    let mut quit = false;
    let mut i: usize = 0;
    while i < events.len()
        invariant
            i <= events@.len(),
            count <= i,
            (count as nat, quit) == growth_prefix(events@, i as nat),
        decreases events@.len() - i,
    {
        if !quit {
            match classify(&events[i]) {
                Command::Quit => {
                    quit = true;
                },
                Command::Grow => {
                    count = count + 1;
                },
                Command::Ignore => {},
            }
        }
        i = i + 1;
    }
    count
}

impl Graph {
    /// Handles one tick's events in order with the given samples: a growth
    /// step takes the next sample, the first stop ends the tick.
    pub fn handle_events_with(&mut self, events: &Vec<Event>, samples: &Vec<GrowthSample>) -> (r:
        TickOutcome)
        requires
            old(self).wf(),
            samples_fit(old(self)@, samples@),
            growths_before_quit(events@) <= samples@.len(),
        ensures
            final(self).wf(),
            final(self)@ == tick(old(self)@, events@, samples@).graph,
            r.ops@ == tick(old(self)@, events@, samples@).ops,
            r.quit == tick(old(self)@, events@, samples@).quit,
    {
        let ghost g = self@;
        let mut ops: Vec<DrawOp> = Vec::new();
        let mut quit = false;
        let mut used: usize = 0;
        let mut i: usize = 0;
        proof {
            lemma_tick_prefix_shape(g, events@, samples@, 0);
        }
        while i < events.len() && !quit
            invariant
                g.wf(),
                samples_fit(g, samples@),
                growths_before_quit(events@) <= samples@.len(),
                i <= events@.len(),
                self.wf(),
                self@ == tick_prefix(g, events@, samples@, i as nat).graph,
                ops@ == tick_prefix(g, events@, samples@, i as nat).ops,
                quit == tick_prefix(g, events@, samples@, i as nat).quit,
                used == tick_prefix(g, events@, samples@, i as nat).used,
                used == growth_prefix(events@, i as nat).0,
                self@.nodes.len() == g.nodes.len() + used,
            decreases events@.len() - i,
        {
            proof {
                lemma_tick_prefix_shape(g, events@, samples@, (i + 1) as nat);
                lemma_growth_prefix_mono(events@, (i + 1) as nat, events@.len());
            }
            match classify(&events[i]) {
                Command::Quit => {
                    quit = true;
                },
                Command::Grow => {
                    let s = samples[used];
                    self.grow(s);
                    // the node count is a usize, which bounds `used + 1`
                    let count = self.node_count();
                    assert(count == g.nodes.len() + used + 1);
                    let mut drawn = self.growth_draw();
                    ops.append(&mut drawn);
                    used = used + 1;
                },
                Command::Ignore => {},
            }
            i = i + 1;
        }
        proof {
            if quit {
                lemma_quit_stays(g, events@, samples@, i as nat, events@.len());
            }
        }
        TickOutcome { quit, ops }
    }
}

} // verus!
