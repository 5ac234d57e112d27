use gst_learn::{Direction, Graph, GraphError, LinkPlan, Resolution};

fn s(x: &str) -> String {
    x.to_string()
}

#[test]
fn duplicate_node_name_is_refused() {
    let mut g = Graph::new();
    assert_eq!(g.add_node(s("audioconvert"), s("convert")), Ok(0));
    assert_eq!(g.add_node(s("audioresample"), s("convert")), Err(GraphError::AlreadyInGraph));
    assert_eq!(g.node_count(), 1);
    assert_eq!(g.find_node("convert"), Some(0));
    assert_eq!(g.find_node("sink"), None);
}

#[test]
fn port_errors() {
    let mut g = Graph::new();
    let n = g.add_node(s("queue"), s("q")).unwrap();
    assert_eq!(g.add_port(7, s("sink"), Direction::Input, None), Err(GraphError::UnknownNode));
    assert_eq!(g.add_port(n, s("sink"), Direction::Input, None), Ok(0));
    assert_eq!(g.add_port(n, s("sink"), Direction::Output, None), Err(GraphError::DuplicatePort));
    assert_eq!(g.find_port(n, "sink"), Some(0));
    assert_eq!(g.port_count(), 1);
}

#[test]
fn static_link_and_relink() {
    let mut g = Graph::new();
    let a = g.add_node(s("audiotestsrc"), s("source")).unwrap();
    let b = g.add_node(s("autoaudiosink"), s("sink")).unwrap();
    let o = g.add_port(a, s("src"), Direction::Output, Some(s("audio/x-raw"))).unwrap();
    let i = g.add_port(b, s("sink"), Direction::Input, None).unwrap();
    assert_eq!(g.plan_link(o, i), Ok(LinkPlan::Connect));
    assert_eq!(g.link_static(o, i, true), Ok(LinkPlan::Connect));
    assert_eq!(g.peer(o), Some(i));
    assert_eq!(g.peer(i), Some(o));
    // Linking twice is reported as already satisfied, not as an error.
    assert_eq!(g.link_static(o, i, true), Ok(LinkPlan::AlreadyLinked));
}

#[test]
fn static_link_errors() {
    let mut g = Graph::new();
    let a = g.add_node(s("videotestsrc"), s("source")).unwrap();
    let b = g.add_node(s("autoaudiosink"), s("sink")).unwrap();
    let c = g.add_node(s("fakesink"), s("other")).unwrap();
    let o = g.add_port(a, s("src"), Direction::Output, Some(s("video/x-raw"))).unwrap();
    let i = g.add_port(b, s("sink"), Direction::Input, Some(s("audio/x-raw"))).unwrap();
    let j = g.add_port(c, s("sink"), Direction::Input, None).unwrap();
    assert_eq!(g.link_static(o, 9, true), Err(GraphError::UnknownPort));
    assert_eq!(g.link_static(i, o, true), Err(GraphError::LinkRejected));
    assert_eq!(g.link_static(o, i, true), Err(GraphError::IncompatibleShape));
    // The framework refused: nothing changes.
    assert_eq!(g.link_static(o, j, false), Err(GraphError::LinkRejected));
    assert_eq!(g.peer(o), None);
    assert_eq!(g.link_static(o, j, true), Ok(LinkPlan::Connect));
    // The output is taken now.
    let k = g.add_port(b, s("sink2"), Direction::Input, None).unwrap();
    assert_eq!(g.link_static(o, k, true), Err(GraphError::LinkRejected));
}

#[test]
fn link_nodes_uses_free_ports() {
    let mut g = Graph::new();
    let a = g.add_node(s("tee"), s("tee")).unwrap();
    let q1 = g.add_node(s("queue"), s("audio_queue")).unwrap();
    let q2 = g.add_node(s("queue"), s("video_queue")).unwrap();
    let t0 = g.add_port(a, s("src_0"), Direction::Output, None).unwrap();
    let t1 = g.add_port(a, s("src_1"), Direction::Output, None).unwrap();
    let i1 = g.add_port(q1, s("sink"), Direction::Input, None).unwrap();
    let i2 = g.add_port(q2, s("sink"), Direction::Input, None).unwrap();
    assert_eq!(g.link_nodes(a, q1, true), Ok((t0, i1)));
    assert_eq!(g.link_nodes(a, q2, true), Ok((t1, i2)));
    assert_eq!(g.link_nodes(a, q2, true), Err(GraphError::NoFreePort));
    assert_eq!(g.free_port(a, Direction::Output), None);
}

fn decoder_graph() -> (Graph, usize, usize, usize) {
    let mut g = Graph::new();
    let src = g.add_node(s("uridecodebin"), s("source")).unwrap();
    let conv = g.add_node(s("audioconvert"), s("convert")).unwrap();
    let sink = g.add_port(conv, s("sink"), Direction::Input, None).unwrap();
    let req = g.request_deferred_link(src, sink, s("audio/x-raw")).unwrap();
    (g, src, sink, req)
}

#[test]
fn deferred_link_first_match_wins() {
    let (mut g, src, sink, req) = decoder_graph();
    let video = g.add_port(src, s("src_0"), Direction::Output, Some(s("video/x-raw"))).unwrap();
    assert_eq!(g.on_port_added(req, video, true), Ok(Resolution::Ignored));
    assert_eq!(g.peer(sink), None);
    let audio = g.add_port(src, s("src_1"), Direction::Output, Some(s("audio/x-raw, rate=44100"))).unwrap();
    assert_eq!(g.resolve(req, audio), Ok(Resolution::Connect));
    assert_eq!(g.on_port_added(req, audio, true), Ok(Resolution::Connect));
    assert_eq!(g.peer(sink), Some(audio));
}

#[test]
fn deferred_link_repeated_notifications() {
    let (mut g, src, sink, req) = decoder_graph();
    let audio = g.add_port(src, s("src_0"), Direction::Output, Some(s("audio/x-raw"))).unwrap();
    let again = g.add_port(src, s("src_1"), Direction::Output, Some(s("audio/x-raw"))).unwrap();
    assert_eq!(g.on_port_added(req, audio, true), Ok(Resolution::Connect));
    assert_eq!(g.on_port_added(req, audio, true), Ok(Resolution::AlreadySatisfied));
    assert_eq!(g.on_port_added(req, again, true), Ok(Resolution::AlreadySatisfied));
    assert_eq!(g.peer(sink), Some(audio));
    assert_eq!(g.peer(again), None);
}

#[test]
fn deferred_link_refusals() {
    let (mut g, src, sink, req) = decoder_graph();
    let unknown = g.add_port(src, s("src_0"), Direction::Output, None).unwrap();
    assert_eq!(g.on_port_added(req, unknown, true), Ok(Resolution::Ignored));
    let audio = g.add_port(src, s("src_1"), Direction::Output, Some(s("audio/x-raw"))).unwrap();
    assert_eq!(g.on_port_added(req, audio, false), Err(GraphError::LinkRejected));
    assert_eq!(g.peer(sink), None);
    assert_eq!(g.on_port_added(5, audio, true), Err(GraphError::UnknownRequest));
    assert_eq!(g.on_port_added(req, 40, true), Err(GraphError::UnknownPort));
    assert_eq!(g.request_deferred_link(9, sink, s("audio")), Err(GraphError::UnknownNode));
    assert_eq!(g.request_deferred_link(src, 99, s("audio")), Err(GraphError::UnknownPort));
    assert_eq!(g.request_deferred_link(src, audio, s("audio")), Err(GraphError::LinkRejected));
}

#[test]
fn unknown_kind_is_refused() {
    let mut g = Graph::new();
    assert_eq!(g.create_node(s("nosuchelement"), s("x"), false), Err(GraphError::NodeCreation));
    assert_eq!(g.node_count(), 0);
    assert_eq!(g.create_node(s("tee"), s("x"), true), Ok(0));
    assert_eq!(g.create_node(s("tee"), s("x"), true), Err(GraphError::AlreadyInGraph));
}

#[test]
fn properties_follow_the_schema() {
    let mut g = Graph::new();
    let n = g.add_node(s("videotestsrc"), s("source")).unwrap();
    assert_eq!(g.set_property(n, s("pattern"), s("smpte")), Err(GraphError::UnknownProperty));
    assert_eq!(g.declare_property(n, s("pattern")), Ok(()));
    assert_eq!(g.declare_property(n, s("pattern")), Ok(()));
    assert_eq!(g.declare_property(4, s("pattern")), Err(GraphError::UnknownNode));
    assert_eq!(g.set_property(4, s("pattern"), s("smpte")), Err(GraphError::UnknownNode));
    assert_eq!(g.property(n, "pattern"), None);
    assert_eq!(g.set_property(n, s("pattern"), s("smpte")), Ok(()));
    assert_eq!(g.property(n, "pattern"), Some(s("smpte")));
    assert_eq!(g.set_property(n, s("pattern"), s("ball")), Ok(()));
    assert_eq!(g.property(n, "pattern"), Some(s("ball")));
    assert_eq!(g.property(n, "is-live"), None);
}

#[test]
fn refused_node_link_leaves_ports_free() {
    let mut g = Graph::new();
    let a = g.add_node(s("audioconvert"), s("convert")).unwrap();
    let b = g.add_node(s("audioresample"), s("resample")).unwrap();
    let o = g.add_port(a, s("src"), Direction::Output, None).unwrap();
    let i = g.add_port(b, s("sink"), Direction::Input, None).unwrap();
    assert_eq!(g.link_nodes(a, b, false), Err(GraphError::LinkRejected));
    assert_eq!(g.peer(o), None);
    assert_eq!(g.peer(i), None);
    assert_eq!(g.link_nodes(a, b, true), Ok((o, i)));
}

#[test]
fn incompatible_node_link_is_refused() {
    let mut g = Graph::new();
    let a = g.add_node(s("videotestsrc"), s("v")).unwrap();
    let b = g.add_node(s("autoaudiosink"), s("a")).unwrap();
    g.add_port(a, s("src"), Direction::Output, Some(s("video/x-raw"))).unwrap();
    g.add_port(b, s("sink"), Direction::Input, Some(s("audio/x-raw"))).unwrap();
    assert_eq!(g.link_nodes(a, b, true), Err(GraphError::IncompatibleShape));
}

#[test]
fn many_notifications_link_once() {
    let (mut g, src, sink, req) = decoder_graph();
    let mut pads = Vec::new();
    for k in 0..5 {
        pads.push(
            g.add_port(src, format!("src_{k}"), Direction::Output, Some(s("audio/x-raw"))).unwrap(),
        );
    }
    assert_eq!(g.on_port_added(req, pads[0], true), Ok(Resolution::Connect));
    for p in &pads[1..] {
        assert_eq!(g.on_port_added(req, *p, true), Ok(Resolution::AlreadySatisfied));
    }
    assert_eq!(g.peer(sink), Some(pads[0]));
    for p in &pads[1..] {
        assert_eq!(g.peer(*p), None);
    }
}
