use node_graph::graph::{Graph, GrowthSample, Point};
use node_graph::input::{classify, Command, Event, Key};
use node_graph::random::{draw_samples, random_point};
use node_graph::render::{edge_line_op, node_circle_op, Color, DrawOp, NODE_RADIUS};
use node_graph::session::pending_growths;
use rand::{Rng, SeedableRng};

fn line(from: Point, to: Point) -> DrawOp {
    DrawOp::Line { from, to, color: Color::Black }
}

fn circle(center: Point) -> DrawOp {
    DrawOp::Circle { center, radius: 8, color: Color::Black }
}

fn sample(x: i32, y: i32, target: usize) -> GrowthSample {
    GrowthSample { position: (x, y), target }
}

fn assert_well_formed(g: &Graph) {
    for &(x, y) in g.nodes() {
        assert!(0 <= x && x < g.width());
        assert!(0 <= y && y < g.height());
    }
    for &(a, b) in g.edges() {
        assert!(a < g.node_count());
        assert!(b < g.node_count());
    }
}

#[test]
fn seed_then_one_growth_step() {
    let mut g = Graph::with_seed(400, 400, (10, 10), (20, 20));
    let events = vec![Event::KeyDown(Key::Return)];
    let out = g.handle_events_with(&events, &vec![sample(5, 5, 0)]);
    assert!(!out.quit);
    assert_eq!(g.nodes(), &vec![(10, 10), (20, 20), (5, 5)]);
    assert_eq!(g.edges(), &vec![(0, 1), (2, 0)]);
    assert_eq!(out.ops, vec![circle((5, 5)), line((5, 5), (10, 10)), DrawOp::Present]);
}

#[test]
fn grow_appends_node_then_edge() {
    let mut g = Graph::with_seed(400, 400, (10, 10), (20, 20));
    let idx = g.grow(sample(5, 5, 0));
    assert_eq!(idx, 2);
    assert_eq!(g.nodes(), &vec![(10, 10), (20, 20), (5, 5)]);
    assert_eq!(g.edges(), &vec![(0, 1), (2, 0)]);
}

#[test]
fn quit_ends_the_tick_before_later_growth() {
    let mut g = Graph::with_seed(400, 400, (10, 10), (20, 20));
    let events = vec![
        Event::KeyDown(Key::Return),
        Event::Quit,
        Event::KeyDown(Key::Return),
        Event::KeyDown(Key::Return),
    ];
    assert_eq!(pending_growths(&events), 1);
    let samples = vec![sample(1, 2, 1), sample(3, 4, 0), sample(5, 6, 0)];
    let out = g.handle_events_with(&events, &samples);
    assert!(out.quit);
    assert_eq!(g.node_count(), 3);
    assert_eq!(g.edges(), &vec![(0, 1), (2, 1)]);
    assert_eq!(out.ops.len(), 3);
}

#[test]
fn quit_first_means_no_growth() {
    let mut g = Graph::with_seed(400, 400, (10, 10), (20, 20));
    let events = vec![Event::Quit, Event::KeyDown(Key::Return)];
    let out = g.handle_events(&events);
    assert!(out.quit);
    assert!(out.ops.is_empty());
    assert_eq!(g.node_count(), 2);
    assert_eq!(g.edge_count(), 1);
}

#[test]
fn escape_stops_like_quit() {
    assert_eq!(classify(&Event::KeyDown(Key::Escape)), Command::Quit);
    assert_eq!(classify(&Event::Quit), Command::Quit);
    assert_eq!(classify(&Event::KeyDown(Key::Return)), Command::Grow);
    assert_eq!(classify(&Event::KeyDown(Key::Other)), Command::Ignore);
    assert_eq!(classify(&Event::Other), Command::Ignore);

    let mut a = Graph::with_seed(400, 400, (10, 10), (20, 20));
    let mut b = Graph::with_seed(400, 400, (10, 10), (20, 20));
    let ra = a.handle_events(&vec![Event::KeyDown(Key::Escape), Event::KeyDown(Key::Return)]);
    let rb = b.handle_events(&vec![Event::Quit, Event::KeyDown(Key::Return)]);
    assert!(ra.quit && rb.quit);
    assert_eq!(a.nodes(), b.nodes());
    assert_eq!(a.edges(), b.edges());
}

#[test]
fn single_node_growth_targets_it() {
    let mut g = Graph::empty(400, 400);
    assert_eq!(g.add_node((7, 9)), 0);
    let out = g.handle_events(&vec![Event::KeyDown(Key::Return)]);
    assert!(!out.quit);
    assert_eq!(g.node_count(), 2);
    assert_eq!(g.edges(), &vec![(1, 0)]);
    assert_well_formed(&g);
}

#[test]
fn ignored_events_change_nothing() {
    let mut g = Graph::with_seed(400, 400, (10, 10), (20, 20));
    let out = g.handle_events(&vec![Event::Other, Event::KeyDown(Key::Other)]);
    assert!(!out.quit);
    assert!(out.ops.is_empty());
    assert_eq!(g.nodes(), &vec![(10, 10), (20, 20)]);
    assert_eq!(g.edges(), &vec![(0, 1)]);
}

#[test]
fn ticks_only_ever_grow() {
    let mut g = Graph::new(400, 400);
    assert_eq!(g.node_count(), 2);
    assert_eq!(g.edges(), &vec![(0, 1)]);
    for round in 0..20usize {
        let before_nodes = g.nodes().clone();
        let before_edges = g.edges().clone();
        let mut events = vec![Event::Other; round % 3];
        for _ in 0..(round % 4) {
            events.push(Event::KeyDown(Key::Return));
        }
        let n = pending_growths(&events);
        assert_eq!(n, round % 4);
        let out = g.handle_events(&events);
        assert!(!out.quit);
        assert_eq!(out.ops.len(), 3 * n);
        assert_eq!(g.node_count(), before_nodes.len() + n);
        assert_eq!(g.edge_count(), before_edges.len() + n);
        assert_eq!(&g.nodes()[..before_nodes.len()], &before_nodes[..]);
        assert_eq!(&g.edges()[..before_edges.len()], &before_edges[..]);
        for (k, &(a, b)) in g.edges()[before_edges.len()..].iter().enumerate() {
            assert_eq!(a, before_nodes.len() + k);
            assert!(b < a);
        }
        assert_well_formed(&g);
    }
}

#[test]
fn same_samples_give_same_graph() {
    let mut rng = rand::rngs::StdRng::seed_from_u64(42);
    let mut samples = Vec::new();
    for k in 0..10usize {
        let x = rng.gen_range(0..400);
        let y = rng.gen_range(0..400);
        let target = rng.gen_range(0..2 + k);
        samples.push(sample(x, y, target));
    }
    let events = vec![Event::KeyDown(Key::Return); 10];
    let mut a = Graph::with_seed(400, 400, (10, 10), (20, 20));
    let mut b = Graph::with_seed(400, 400, (10, 10), (20, 20));
    let ra = a.handle_events_with(&events, &samples);
    let rb = b.handle_events_with(&events, &samples);
    assert_eq!(a.nodes(), b.nodes());
    assert_eq!(a.edges(), b.edges());
    assert_eq!(ra.ops, rb.ops);
    assert_eq!(a.node_count(), 12);
    assert_well_formed(&a);
}

#[test]
fn full_redraw_draws_edges_before_nodes() {
    let mut g = Graph::with_seed(400, 400, (10, 10), (20, 20));
    g.grow(sample(5, 5, 0));
    let ops = g.full_redraw();
    assert_eq!(
        ops,
        vec![
            DrawOp::Clear(Color::White),
            line((10, 10), (20, 20)),
            line((5, 5), (10, 10)),
            circle((10, 10)),
            circle((20, 20)),
            circle((5, 5)),
            DrawOp::Present,
        ]
    );
}

#[test]
fn full_redraw_twice_is_the_same() {
    let mut g = Graph::new(400, 400);
    g.handle_events(&vec![Event::KeyDown(Key::Return); 5]);
    let first = g.full_redraw();
    let second = g.full_redraw();
    assert_eq!(first, second);
    assert_eq!(first.len(), 2 + g.edge_count() + g.node_count());
}

#[test]
fn full_redraw_of_empty_graph() {
    let g = Graph::empty(400, 400);
    assert_eq!(g.full_redraw(), vec![DrawOp::Clear(Color::White), DrawOp::Present]);
}

#[test]
fn growth_draw_shows_newest_node_and_edge() {
    let mut g = Graph::with_seed(400, 400, (10, 10), (20, 20));
    g.grow(sample(30, 40, 1));
    assert_eq!(
        g.growth_draw(),
        vec![circle((30, 40)), line((30, 40), (20, 20)), DrawOp::Present]
    );
}

#[test]
fn single_draw_ops() {
    assert_eq!(NODE_RADIUS, 8);
    assert_eq!(node_circle_op((3, 4)), circle((3, 4)));
    let nodes = vec![(1, 2), (3, 4)];
    assert_eq!(edge_line_op(&nodes, (1, 0)), line((3, 4), (1, 2)));
    assert_eq!(edge_line_op(&nodes, (1, 1)), line((3, 4), (3, 4)));
}

#[test]
fn add_edge_allows_self_loops_and_repeats() {
    let mut g = Graph::empty(10, 10);
    g.add_node((0, 0));
    g.add_node((9, 9));
    g.add_edge(1, 1);
    g.add_edge(0, 1);
    g.add_edge(0, 1);
    assert_eq!(g.edges(), &vec![(1, 1), (0, 1), (0, 1)]);
    assert_eq!(g.node_count(), 2);
}

#[test]
fn pending_growths_counts_until_the_first_stop() {
    assert_eq!(pending_growths(&vec![]), 0);
    let events = vec![
        Event::KeyDown(Key::Return),
        Event::Other,
        Event::KeyDown(Key::Return),
        Event::KeyDown(Key::Escape),
        Event::KeyDown(Key::Return),
    ];
    assert_eq!(pending_growths(&events), 2);
}

#[test]
fn random_point_on_a_one_pixel_canvas() {
    assert_eq!(random_point(1, 1), (0, 0));
    for _ in 0..100 {
        let (x, y) = random_point(3, 2);
        assert!(0 <= x && x < 3);
        assert!(0 <= y && y < 2);
    }
}

#[test]
fn drawn_samples_fit_their_step() {
    let s = draw_samples(1, 1, 1, 3);
    assert_eq!(s.len(), 3);
    assert_eq!(s[0], sample(0, 0, 0));
    for (k, smp) in draw_samples(5, 7, 2, 50).iter().enumerate() {
        assert!(smp.target < 2 + k);
        assert!(0 <= smp.position.0 && smp.position.0 < 5);
        assert!(0 <= smp.position.1 && smp.position.1 < 7);
    }
    assert!(draw_samples(5, 5, 0, 0).is_empty());
}
