use gst_learn::{
    next_step, run_until_stopped, transition_path, BufferingPolicy, Bus, BusError, Direction,
    Dispatcher, Graph, LinkPlan, Lifecycle, LifecycleState, MessageBody, Origin, Reaction, RunEnd,
    StepOutcome, TickPlan,
};
use LifecycleState::{Active, Paused, Ready, Unset};

#[test]
fn start_passes_every_state() {
    assert_eq!(transition_path(Unset, Active), vec![Ready, Paused, Active]);
    assert_eq!(transition_path(Active, Ready), vec![Paused, Ready]);
    assert_eq!(transition_path(Paused, Paused), vec![]);
    assert_eq!(next_step(Ready, Active), Paused);
}

#[test]
fn teardown_from_any_state() {
    for s in [Unset, Ready, Paused, Active] {
        let expected = if s == Unset { vec![] } else { vec![Unset] };
        assert_eq!(transition_path(s, Unset), expected);
    }
    let mut life = Lifecycle::new();
    assert_eq!(life.request(Paused), Some(Ready));
    assert_eq!(life.on_outcome(StepOutcome::Success), Some(Paused));
    assert_eq!(life.on_outcome(StepOutcome::Async), None);
    assert!(life.is_pending());
    assert_eq!(life.request(Unset), Some(Unset));
    assert_eq!(life.current(), Unset);
    assert!(!life.is_pending());
}

#[test]
fn lifecycle_steps_in_order() {
    let mut life = Lifecycle::new();
    let mut seen = Vec::new();
    let mut step = life.request(Active);
    while let Some(s) = step {
        seen.push(s);
        step = life.on_outcome(StepOutcome::Success);
    }
    assert_eq!(seen, vec![Ready, Paused, Active]);
    assert_eq!(life.current(), Active);
    assert!(!life.is_live());
}

#[test]
fn lifecycle_failure_and_live() {
    let mut life = Lifecycle::new();
    assert_eq!(life.request(Ready), Some(Ready));
    assert_eq!(life.on_outcome(StepOutcome::Failure), None);
    assert!(!life.is_known());
    assert_eq!(life.observe(Unset), Some(Ready));
    assert!(life.is_known());
    assert_eq!(life.on_outcome(StepOutcome::Success), None);
    assert_eq!(life.request(Active), Some(Paused));
    assert_eq!(life.on_outcome(StepOutcome::Success), Some(Active));
    assert_eq!(life.on_outcome(StepOutcome::NoPreroll), None);
    assert!(life.is_live());
    assert_eq!(life.current(), Active);
    assert!(Active.is_at_least(&Paused));
    assert!(!Ready.is_at_least(&Paused));
    assert_eq!(LifecycleState::from_level(2), Some(Paused));
    assert_eq!(LifecycleState::from_level(4), None);
}

#[test]
fn bus_orders_by_time_then_posting() {
    let mut bus = Bus::new();
    assert_eq!(bus.post(Origin::Node(0), 20, MessageBody::EndOfStream), Ok(0));
    assert_eq!(bus.post(Origin::Node(1), 10, MessageBody::DurationChanged), Ok(1));
    assert_eq!(bus.post(Origin::Graph, 10, MessageBody::Other), Ok(2));
    assert_eq!(bus.len(), 3);
    let order: Vec<(u64, u64)> = (0..3)
        .map(|_| {
            let m = bus.pop().unwrap();
            (m.timestamp, m.seq)
        })
        .collect();
    assert_eq!(order, vec![(10, 1), (10, 2), (20, 0)]);
    assert!(bus.pop().is_none());
    let _ = BusError::SequenceExhausted;
}

#[test]
fn bounded_fetch_times_out() {
    let mut bus = Bus::new();
    bus.post(Origin::Graph, 500, MessageBody::EndOfStream).unwrap();
    assert!(bus.pop_until(499).is_none());
    assert_eq!(bus.len(), 1);
    assert!(bus.pop_until(500).is_some());
}

fn dispatcher() -> Dispatcher {
    Dispatcher::new(3_000_000_000, 20_000_000_000, BufferingPolicy::new(30, false))
}

#[test]
fn error_during_run_tears_down() {
    let mut g = Graph::new();
    let src = g.add_node("videotestsrc".to_string(), "source".to_string()).unwrap();
    let sink = g.add_node("autovideosink".to_string(), "sink".to_string()).unwrap();
    let o = g.add_port(src, "src".to_string(), Direction::Output, None).unwrap();
    let i = g.add_port(sink, "sink".to_string(), Direction::Input, None).unwrap();
    assert_eq!(g.link_static(o, i, true), Ok(LinkPlan::Connect));

    let mut life = Lifecycle::new();
    let mut step = life.request(Active);
    while step.is_some() {
        step = life.on_outcome(StepOutcome::Success);
    }
    assert_eq!(life.current(), Active);

    let mut bus = Bus::new();
    bus.post(Origin::Graph, 1_000_000, MessageBody::StateChanged { from: Paused, to: Active })
        .unwrap();
    bus.post(
        Origin::Node(src),
        10_000_000,
        MessageBody::Error { summary: "stream error".to_string(), detail: None },
    )
    .unwrap();
    let mut d = dispatcher();
    match run_until_stopped(&mut d, &mut bus, &mut life, 100_000_000) {
        RunEnd::Stopped(m) => {
            assert_eq!(m.origin, Origin::Node(src));
            assert!(m.timestamp <= 100_000_000);
            match m.body {
                MessageBody::Error { summary, .. } => assert_eq!(summary, "stream error"),
                _ => panic!("stopped on another message"),
            }
        }
        RunEnd::Drained => panic!("the error was not seen"),
    }
    assert!(d.is_terminated());
    assert_eq!(life.current(), Unset);
}

#[test]
fn end_of_stream_stops_at_ready() {
    let mut life = Lifecycle::new();
    let mut bus = Bus::new();
    bus.post(Origin::Graph, 5, MessageBody::EndOfStream).unwrap();
    let mut d = dispatcher();
    assert!(matches!(run_until_stopped(&mut d, &mut bus, &mut life, 10), RunEnd::Stopped(_)));
    assert_eq!(life.target(), Ready);
    let mut empty = Bus::new();
    assert!(matches!(run_until_stopped(&mut d, &mut empty, &mut life, 10), RunEnd::Drained));
}

#[test]
fn state_changes_only_from_graph() {
    let mut d = dispatcher();
    let mut bus = Bus::new();
    bus.post(Origin::Node(3), 1, MessageBody::StateChanged { from: Paused, to: Active }).unwrap();
    bus.post(Origin::Graph, 2, MessageBody::StateChanged { from: Paused, to: Active }).unwrap();
    let m = bus.pop().unwrap();
    assert_eq!(d.handle(&m), Reaction::Continue);
    assert!(!d.is_playing());
    let m = bus.pop().unwrap();
    assert_eq!(d.handle(&m), Reaction::QuerySeeking);
    assert!(d.is_playing());
}

#[test]
fn duration_cache_and_one_time_seek() {
    let mut d = dispatcher();
    let mut bus = Bus::new();
    bus.post(Origin::Graph, 1, MessageBody::StateChanged { from: Paused, to: Active }).unwrap();
    bus.post(Origin::Graph, 2, MessageBody::DurationChanged).unwrap();
    d.handle(&bus.pop().unwrap());
    d.store_duration(Some(52_000_000_000));
    assert_eq!(d.on_tick(1_000_000_000), TickPlan { query_duration: false, seek_to: None });
    d.handle(&bus.pop().unwrap());
    assert_eq!(d.duration(), None);
    d.store_seekable(true);
    assert_eq!(d.on_tick(2_000_000_000), TickPlan { query_duration: true, seek_to: None });
    assert_eq!(
        d.on_tick(3_500_000_000),
        TickPlan { query_duration: true, seek_to: Some(20_000_000_000) }
    );
    assert_eq!(d.on_tick(21_000_000_000).seek_to, None);
}

#[test]
fn buffering_edges_and_tags() {
    let mut d = dispatcher();
    let tag = d.register_tag("tags-changed".to_string());
    let mut bus = Bus::new();
    for p in [10u8, 20, 30, 90] {
        bus.post(Origin::Node(1), 1, MessageBody::Buffering { percent: p }).unwrap();
    }
    bus.post(Origin::Graph, 2, MessageBody::Application { tag: "tags-changed".to_string() })
        .unwrap();
    bus.post(Origin::Graph, 3, MessageBody::Application { tag: "other".to_string() }).unwrap();
    bus.post(Origin::Graph, 4, MessageBody::ClockLost).unwrap();
    let mut got = Vec::new();
    while let Some(m) = bus.pop() {
        got.push(d.handle(&m));
    }
    assert_eq!(
        got,
        vec![
            Reaction::SetState(Paused),
            Reaction::Continue,
            Reaction::SetState(Active),
            Reaction::Continue,
            Reaction::Handler(tag),
            Reaction::Continue,
            Reaction::Reclock,
        ]
    );
    assert!(!Reaction::Stop(Unset).keeps_running());
    assert!(Reaction::Continue.keeps_running());
}

#[test]
fn live_graph_ignores_buffering() {
    let mut d = dispatcher();
    d.set_live(true);
    let mut bus = Bus::new();
    bus.post(Origin::Node(1), 1, MessageBody::Buffering { percent: 5 }).unwrap();
    assert_eq!(d.handle(&bus.pop().unwrap()), Reaction::Continue);
}

#[test]
fn run_applies_requested_states_in_order() {
    let mut life = Lifecycle::new();
    let mut step = life.request(Active);
    while step.is_some() {
        step = life.on_outcome(StepOutcome::Success);
    }
    let mut d = dispatcher();
    let mut bus = Bus::new();
    bus.post(Origin::Node(1), 1, MessageBody::Buffering { percent: 10 }).unwrap();
    assert!(matches!(run_until_stopped(&mut d, &mut bus, &mut life, 10), RunEnd::Drained));
    assert_eq!(life.target(), Paused);
    bus.post(Origin::Node(1), 2, MessageBody::Buffering { percent: 50 }).unwrap();
    bus.post(Origin::Node(1), 50, MessageBody::EndOfStream).unwrap();
    assert!(matches!(run_until_stopped(&mut d, &mut bus, &mut life, 10), RunEnd::Drained));
    assert_eq!(life.target(), Active);
    assert!(!d.is_terminated());
    assert_eq!(bus.len(), 1);
    assert!(matches!(run_until_stopped(&mut d, &mut bus, &mut life, 60), RunEnd::Stopped(_)));
    assert!(d.is_terminated());
    assert_eq!(life.target(), Ready);
}
