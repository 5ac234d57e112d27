use crate::text::{has_prefix, same_text, starts_with};
use vstd::prelude::*;

verus! {

/// Which way data crosses a port.
#[derive(Clone, Copy, Debug, PartialEq, Eq, Structural)]
pub enum Direction {
    Input,
    Output,
}

/// A named processing unit of a graph.
pub struct Node {
    pub name: String,
    pub kind: String,
}

/// A connection point of a node. Its data shape may be unknown until the
/// node negotiates it.
pub struct Port {
    pub node: usize,
    pub name: String,
    pub direction: Direction,
    pub shape: Option<String>,
}

/// A link waiting for `source` to expose an output whose shape starts with
/// `prefix`; that output is then linked to the input port `sink`.
pub struct DeferredLink {
    pub source: usize,
    pub sink: usize,
    pub prefix: String,
}

/// A property that a node's kind declares.
pub struct PropertyKey {
    pub node: usize,
    pub key: String,
}

/// A property value assigned to a node.
pub struct Property {
    pub node: usize,
    pub key: String,
    pub value: String,
}

/// Whether `node` declares property `key`.
pub open spec fn declares(schema: Seq<PropertyKey>, node: usize, key: Seq<char>) -> bool {
    exists|i: int| 0 <= i < schema.len() && (#[trigger] schema[i]).node == node && schema[i].key@ == key
}

/// Whether entry `i` of `props` holds property `key` of `node`.
pub open spec fn holds(props: Seq<Property>, i: int, node: usize, key: Seq<char>) -> bool {
    0 <= i < props.len() && props[i].node == node && props[i].key@ == key
}

/// Why a graph operation was refused.
#[derive(Clone, Copy, Debug, PartialEq, Eq, Structural)]
pub enum GraphError {
    /// The framework does not know the node's kind.
    NodeCreation,
    /// A node of that name is already in the graph.
    AlreadyInGraph,
    /// The node has a port of that name already.
    DuplicatePort,
    UnknownNode,
    UnknownPort,
    UnknownRequest,
    /// The node's kind declares no property of that name.
    UnknownProperty,
    /// The declared shapes of the two ports differ.
    IncompatibleShape,
    /// The link is impossible: wrong directions, a port linked elsewhere, or
    /// the framework refused it.
    LinkRejected,
    /// The node has no unlinked port of the needed direction.
    NoFreePort,
}

/// What a link request amounts to before the framework is asked.
#[derive(Clone, Copy, Debug, PartialEq, Eq, Structural)]
pub enum LinkPlan {
    /// The two ports are already linked to each other: nothing to do.
    AlreadyLinked,
    /// The ports can be linked.
    Connect,
}

/// What the resolver makes of a newly exposed port.
#[derive(Clone, Copy, Debug, PartialEq, Eq, Structural)]
pub enum Resolution {
    /// The sink is linked already: nothing to do.
    AlreadySatisfied,
    /// The port does not match the request and is ignored.
    Ignored,
    /// The port matches; link it to the sink.
    Connect,
}

/// Declared shapes are compatible when either is unknown or both are equal.
pub open spec fn shapes_compatible(a: Option<String>, b: Option<String>) -> bool {
    match (a, b) {
        (Some(x), Some(y)) => x@ == y@,
        _ => true,
    }
}

/// Whether port `k` is the first unlinked port of `node` with direction `dir`.
pub open spec fn first_free(
    ports: Seq<Port>,
    peers: Seq<Option<usize>>,
    node: usize,
    dir: Direction,
    k: int,
) -> bool {
    &&& 0 <= k < ports.len()
    &&& ports[k].node == node
    &&& ports[k].direction == dir
    &&& peers[k] is None
    &&& forall|j: int|
        0 <= j < k ==> !((#[trigger] ports[j]).node == node && ports[j].direction == dir
            && peers[j] is None)
}

/// The peers after linking ports `a` and `b` to each other.
pub open spec fn with_link(peers: Seq<Option<usize>>, a: int, b: int) -> Seq<Option<usize>> {
    peers.update(a, Some(b as usize)).update(b, Some(a as usize))
}

/// The decision on a static link from `out` to `inp`.
pub open spec fn link_plan(
    ports: Seq<Port>,
    peers: Seq<Option<usize>>,
    out: int,
    inp: int,
) -> Result<LinkPlan, GraphError> {
    if !(0 <= out < ports.len() && 0 <= inp < ports.len()) {
        Err(GraphError::UnknownPort)
    } else if ports[out].direction != Direction::Output || ports[inp].direction
        != Direction::Input {
        Err(GraphError::LinkRejected)
    } else if peers[out] == Some(inp as usize) {
        Ok(LinkPlan::AlreadyLinked)
    } else if peers[out] is Some || peers[inp] is Some {
        Err(GraphError::LinkRejected)
    } else if !shapes_compatible(ports[out].shape, ports[inp].shape) {
        Err(GraphError::IncompatibleShape)
    } else {
        Ok(LinkPlan::Connect)
    }
}

/// The resolver's decision on port `port` exposed for deferred link `req`.
/// First match wins: once the sink is linked, every later port is answered
/// with "already satisfied".
pub open spec fn resolution(
    ports: Seq<Port>,
    peers: Seq<Option<usize>>,
    reqs: Seq<DeferredLink>,
    req: int,
    port: int,
) -> Result<Resolution, GraphError> {
    if !(0 <= req < reqs.len()) {
        Err(GraphError::UnknownRequest)
    } else if !(0 <= port < ports.len()) {
        Err(GraphError::UnknownPort)
    } else if peers[reqs[req].sink as int] is Some {
        Ok(Resolution::AlreadySatisfied)
    } else if ports[port].node != reqs[req].source || ports[port].direction != Direction::Output
        || peers[port] is Some {
        Ok(Resolution::Ignored)
    } else if !(ports[port].shape matches Some(s) && has_prefix(s@, reqs[req].prefix@)) {
        Ok(Resolution::Ignored)
    } else {
        Ok(Resolution::Connect)
    }
}

/// Repeated notifications for one deferred link link the sink once: after
/// the first matching port is linked, every later notification, matching or
/// not, is answered with "already satisfied", and the sink has exactly one
/// peer.
pub proof fn lemma_deferred_link_idempotent(g: Graph, request: usize, first: usize, later: usize)
    requires
        g.wf(),
        resolution(
            g.spec_ports(),
            g.spec_peers(),
            g.spec_deferred(),
            request as int,
            first as int,
        ) == Ok::<Resolution, GraphError>(Resolution::Connect),
        later < g.spec_ports().len(),
    ensures
        ({
            let sink = g.spec_deferred()[request as int].sink;
            let peers = with_link(g.spec_peers(), first as int, sink as int);
            &&& resolution(g.spec_ports(), peers, g.spec_deferred(), request as int, later as int)
                == Ok::<Resolution, GraphError>(Resolution::AlreadySatisfied)
            &&& peers[sink as int] == Some(first)
            &&& forall|j: int|
                0 <= j < peers.len() && #[trigger] peers[j] == Some(sink) ==> j == first
        }),
{
    let sink = g.spec_deferred()[request as int].sink;
    let old_peers = g.spec_peers();
    assert(sink < g.spec_ports().len());
    assert(old_peers[first as int] is None);
    assert(old_peers[sink as int] is None);
    assert(g.spec_ports()[sink as int].direction == Direction::Input);
    assert(first != sink);
    let peers = with_link(old_peers, first as int, sink as int);
    assert(peers[sink as int] == Some(first));
    assert forall|j: int| 0 <= j < peers.len() && #[trigger] peers[j] == Some(sink) implies j
        == first by {
        if j != first && j != sink {
            assert(peers[j] == old_peers[j]);
            assert(old_peers[j] == Some(sink));
            assert(old_peers[sink as int] == Some(j as usize));
        }
    }
}

/// The peers after the notification that `port` was exposed for deferred
/// link `req`, with `accepted` the framework's answer to the link.
pub open spec fn peers_after_notice(
    ports: Seq<Port>,
    peers: Seq<Option<usize>>,
    reqs: Seq<DeferredLink>,
    req: int,
    port: int,
    accepted: bool,
) -> Seq<Option<usize>> {
    if resolution(ports, peers, reqs, req, port) == Ok::<Resolution, GraphError>(
        Resolution::Connect,
    ) && accepted {
        with_link(peers, port, reqs[req].sink as int)
    } else {
        peers
    }
}

/// The peers after a sequence of notifications for deferred link `req`.
pub open spec fn peers_after_notices(
    ports: Seq<Port>,
    peers: Seq<Option<usize>>,
    reqs: Seq<DeferredLink>,
    req: int,
    notices: Seq<(usize, bool)>,
) -> Seq<Option<usize>>
    decreases notices.len(),
{
    if notices.len() == 0 {
        peers
    } else {
        peers_after_notices(
            ports,
            peers_after_notice(ports, peers, reqs, req, notices[0].0 as int, notices[0].1),
            reqs,
            req,
            notices.drop_first(),
        )
    }
}

/// Once the sink of a deferred link is linked, no notification changes the
/// links.
pub proof fn lemma_linked_sink_stays(
    ports: Seq<Port>,
    peers: Seq<Option<usize>>,
    reqs: Seq<DeferredLink>,
    req: int,
    notices: Seq<(usize, bool)>,
)
    requires
        0 <= req < reqs.len(),
        peers[reqs[req].sink as int] is Some,
    ensures
        peers_after_notices(ports, peers, reqs, req, notices) == peers,
    decreases notices.len(),
{
    if notices.len() > 0 {
        lemma_linked_sink_stays(ports, peers, reqs, req, notices.drop_first());
    }
}

/// Any number of notifications for one deferred link, the first of which
/// matches and is accepted, link the sink exactly once: to the first port,
/// with every later notification answered "already satisfied".
pub proof fn lemma_deferred_link_once(g: Graph, req: usize, notices: Seq<(usize, bool)>)
    requires
        g.wf(),
        notices.len() >= 1,
        notices[0].1,
        resolution(
            g.spec_ports(),
            g.spec_peers(),
            g.spec_deferred(),
            req as int,
            notices[0].0 as int,
        )
            == Ok::<Resolution, GraphError>(Resolution::Connect),
    ensures
        ({
            let sink = g.spec_deferred()[req as int].sink;
            let first = notices[0].0 as int;
            let peers = peers_after_notices(
                g.spec_ports(),
                g.spec_peers(),
                g.spec_deferred(),
                req as int,
                notices,
            );
            &&& peers == with_link(g.spec_peers(), first, sink as int)
            &&& peers[sink as int] == Some(first as usize)
            &&& forall|j: int| 0 <= j < peers.len() && #[trigger] peers[j] == Some(sink) ==> j == first
            &&& forall|n: int|
                1 <= n < notices.len() && #[trigger] notices[n].0 < g.spec_ports().len()
                    ==> resolution(g.spec_ports(), peers, g.spec_deferred(), req as int, notices[n].0 as int)
                    == Ok::<Resolution, GraphError>(Resolution::AlreadySatisfied)
        }),
{
    let first = notices[0].0;
    let sink = g.spec_deferred()[req as int].sink;
    let linked = with_link(g.spec_peers(), first as int, sink as int);
    lemma_deferred_link_idempotent(g, req, first, first);
    assert(peers_after_notice(g.spec_ports(), g.spec_peers(), g.spec_deferred(), req as int, first as int, true) == linked);
    assert(peers_after_notices(g.spec_ports(), g.spec_peers(), g.spec_deferred(), req as int, notices)
        == peers_after_notices(g.spec_ports(), linked, g.spec_deferred(), req as int, notices.drop_first()));
    lemma_linked_sink_stays(g.spec_ports(), linked, g.spec_deferred(), req as int, notices.drop_first());
    assert forall|n: int|
        1 <= n < notices.len() && #[trigger] notices[n].0 < g.spec_ports().len() implies resolution(
        g.spec_ports(),
        linked,
        g.spec_deferred(),
        req as int,
        notices[n].0 as int,
    ) == Ok::<Resolution, GraphError>(Resolution::AlreadySatisfied) by {
        lemma_deferred_link_idempotent(g, req, first, notices[n].0);
    }
}

/// A graph of nodes with their ports, the links between ports, and the
/// deferred link requests.
pub struct Graph {
    nodes: Vec<Node>,
    ports: Vec<Port>,
    peers: Vec<Option<usize>>,
    deferred: Vec<DeferredLink>,
    schema: Vec<PropertyKey>,
    props: Vec<Property>,
}

impl Graph {
    pub closed spec fn spec_nodes(&self) -> Seq<Node> {
        self.nodes@
    }

    pub closed spec fn spec_ports(&self) -> Seq<Port> {
        self.ports@
    }

    /// For each port, the port it is linked to.
    pub closed spec fn spec_peers(&self) -> Seq<Option<usize>> {
        self.peers@
    }

    pub closed spec fn spec_schema(&self) -> Seq<PropertyKey> {
        self.schema@
    }

    pub closed spec fn spec_props(&self) -> Seq<Property> {
        self.props@
    }

    pub closed spec fn spec_deferred(&self) -> Seq<DeferredLink> {
        self.deferred@
    }

    /// Node names are unique, every port belongs to a node, links are
    /// symmetric and join an output to an input, and every deferred request
    /// names a node and an input port.
    pub open spec fn wf(&self) -> bool {
        let nodes = self.spec_nodes();
        let ports = self.spec_ports();
        let peers = self.spec_peers();
        let reqs = self.spec_deferred();
        &&& peers.len() == ports.len()
        &&& forall|i: int, j: int|
            0 <= i < nodes.len() && 0 <= j < nodes.len() && i != j ==> (#[trigger] nodes[i]).name@
                != (#[trigger] nodes[j]).name@
        &&& forall|i: int| 0 <= i < ports.len() ==> (#[trigger] ports[i]).node < nodes.len()
        &&& forall|i: int, j: int|
            0 <= i < ports.len() && 0 <= j < ports.len() && i != j && (#[trigger] ports[i]).node
                == (#[trigger] ports[j]).node ==> ports[i].name@ != ports[j].name@
        &&& forall|i: int|
            #![trigger peers[i]]
            0 <= i < ports.len() && peers[i] is Some ==> {
                let j = peers[i]->Some_0 as int;
                &&& 0 <= j < ports.len()
                &&& j != i
                &&& peers[j] == Some(i as usize)
                &&& ports[i].direction != ports[j].direction
            }
        &&& forall|k: int|
            0 <= k < reqs.len() ==> {
                &&& (#[trigger] reqs[k]).source < nodes.len()
                &&& reqs[k].sink < ports.len()
                &&& ports[reqs[k].sink as int].direction == Direction::Input
            }
    }

    /// An empty graph.
    pub fn new() -> (r: Graph)
        ensures
            r.wf(),
            r.spec_nodes().len() == 0,
            r.spec_ports().len() == 0,
            r.spec_deferred().len() == 0,
    {
        Graph {
            nodes: Vec::new(),
            ports: Vec::new(),
            peers: Vec::new(),
            deferred: Vec::new(),
            schema: Vec::new(),
            props: Vec::new(),
        }
    }

    pub fn node_count(&self) -> (r: usize)
        ensures
            r == self.spec_nodes().len(),
    {
        self.nodes.len()
    }

    pub fn port_count(&self) -> (r: usize)
        ensures
            r == self.spec_ports().len(),
    {
        self.ports.len()
    }

    /// The index of the node named `name`, if there is one.
    pub fn find_node(&self, name: &str) -> (r: Option<usize>)
        ensures
            r matches Some(i) ==> i < self.spec_nodes().len() && self.spec_nodes()[i as int].name@
                == name@,
            r is None ==> forall|i: int|
                0 <= i < self.spec_nodes().len() ==> (#[trigger] self.spec_nodes()[i]).name@
                    != name@,
    {
        let mut i: usize = 0;
        while i < self.nodes.len()
            invariant
                i <= self.nodes@.len(),
                forall|k: int| 0 <= k < i ==> (#[trigger] self.nodes@[k]).name@ != name@,
            decreases self.nodes@.len() - i,
        {
            if same_text(self.nodes[i].name.as_str(), name) {
                return Some(i);
            }
            i = i + 1;
        }
        None
    }

    /// The index of the port of `node` named `name`, if there is one.
    pub fn find_port(&self, node: usize, name: &str) -> (r: Option<usize>)
        ensures
            r matches Some(i) ==> i < self.spec_ports().len() && self.spec_ports()[i as int].node
                == node && self.spec_ports()[i as int].name@ == name@,
            r is None ==> forall|i: int|
                0 <= i < self.spec_ports().len() ==> !((#[trigger] self.spec_ports()[i]).node
                    == node && self.spec_ports()[i].name@ == name@),
    {
        let mut i: usize = 0;
        while i < self.ports.len()
            invariant
                i <= self.ports@.len(),
                forall|k: int|
                    0 <= k < i ==> !((#[trigger] self.ports@[k]).node == node
                        && self.ports@[k].name@ == name@),
            decreases self.ports@.len() - i,
        {
            if self.ports[i].node == node && same_text(self.ports[i].name.as_str(), name) {
                return Some(i);
            }
            i = i + 1;
        }
        None
    }

    /// Adds a node. Fails with AlreadyInGraph when the name is taken.
    pub fn add_node(&mut self, kind: String, name: String) -> (r: Result<usize, GraphError>)
        requires
            old(self).wf(),
        ensures
            final(self).wf(),
            (exists|i: int|
                0 <= i < old(self).spec_nodes().len() && (#[trigger] old(self).spec_nodes()[i]).name@ == name@) ==> {
                &&& r == Err::<usize, GraphError>(GraphError::AlreadyInGraph)
                &&& *final(self) == *old(self)
            },
            !(exists|i: int|
                0 <= i < old(self).spec_nodes().len() && (#[trigger] old(self).spec_nodes()[i]).name@ == name@) ==> {
                &&& r == Ok::<usize, GraphError>(old(self).spec_nodes().len() as usize)
                &&& old(self).spec_nodes().len() < usize::MAX
                &&& final(self).spec_nodes() == old(self).spec_nodes().push(
                    Node { name, kind },
                )
                &&& final(self).spec_ports() == old(self).spec_ports()
                &&& final(self).spec_peers() == old(self).spec_peers()
                &&& final(self).spec_deferred() == old(self).spec_deferred()
            },
    {
        match self.find_node(name.as_str()) {
            Some(i) => {
                assert(self.nodes@[i as int].name@ == name@);
                Err(GraphError::AlreadyInGraph)
            },
            None => {
                let idx = self.nodes.len();
                self.nodes.push(Node { name, kind });
                let total = self.nodes.len();
                assert(idx < total);
                proof {
                    let nodes = self.nodes@;
                    assert forall|i: int, j: int|
                        0 <= i < nodes.len() && 0 <= j < nodes.len() && i != j implies (
                        #[trigger] nodes[i]).name@ != (#[trigger] nodes[j]).name@ by {
                        if i < idx && j < idx {
                            assert(nodes[i] == old(self).nodes@[i]);
                            assert(nodes[j] == old(self).nodes@[j]);
                        } else if i < idx {
                            assert(nodes[i] == old(self).nodes@[i]);
                        } else {
                            assert(nodes[j] == old(self).nodes@[j]);
                        }
                    }
                }
                Ok(idx)
            },
        }
    }

    /// Creates a node of `kind` named `name`; `created` is the framework's
    /// answer on whether it knows the kind. Fails with NodeCreation when it
    /// does not, and with AlreadyInGraph when the name is taken.
    pub fn create_node(&mut self, kind: String, name: String, created: bool) -> (r: Result<
        usize,
        GraphError,
    >)
        requires
            old(self).wf(),
        ensures
            final(self).wf(),
            !created ==> r == Err::<usize, GraphError>(GraphError::NodeCreation) && *final(self)
                == *old(self),
            created && (exists|i: int|
                0 <= i < old(self).spec_nodes().len() && (#[trigger] old(self).spec_nodes()[i]).name@
                    == name@) ==> r == Err::<usize, GraphError>(GraphError::AlreadyInGraph)
                && *final(self) == *old(self),
            created && !(exists|i: int|
                0 <= i < old(self).spec_nodes().len() && (#[trigger] old(self).spec_nodes()[i]).name@
                    == name@) ==> {
                &&& r == Ok::<usize, GraphError>(old(self).spec_nodes().len() as usize)
                &&& old(self).spec_nodes().len() < usize::MAX
                &&& final(self).spec_nodes() == old(self).spec_nodes().push(Node { name, kind })
                &&& final(self).spec_ports() == old(self).spec_ports()
                &&& final(self).spec_peers() == old(self).spec_peers()
                &&& final(self).spec_deferred() == old(self).spec_deferred()
            },
    {
        if !created {
            return Err(GraphError::NodeCreation);
        }
        self.add_node(kind, name)
    }

    /// Adds a port to `node`. Fails with UnknownNode for a node that is not in
    /// the graph, and with DuplicatePort when the node has a port of that name.
    pub fn add_port(
        &mut self,
        node: usize,
        name: String,
        direction: Direction,
        shape: Option<String>,
    ) -> (r: Result<usize, GraphError>)
        requires
            old(self).wf(),
        ensures
            final(self).wf(),
            node >= old(self).spec_nodes().len() ==> r == Err::<usize, GraphError>(
                GraphError::UnknownNode,
            ) && *final(self) == *old(self),
            node < old(self).spec_nodes().len() && (exists|i: int|
                0 <= i < old(self).spec_ports().len() && (#[trigger] old(self).spec_ports()[i]).node
                    == node && old(self).spec_ports()[i].name@ == name@) ==> r == Err::<
                usize,
                GraphError,
            >(GraphError::DuplicatePort) && *final(self) == *old(self),
            node < old(self).spec_nodes().len() && !(exists|i: int|
                0 <= i < old(self).spec_ports().len() && (#[trigger] old(self).spec_ports()[i]).node
                    == node && old(self).spec_ports()[i].name@ == name@) ==> {
                &&& r == Ok::<usize, GraphError>(old(self).spec_ports().len() as usize)
                &&& old(self).spec_ports().len() < usize::MAX
                &&& final(self).spec_ports() == old(self).spec_ports().push(
                    Port { node, name, direction, shape },
                )
                &&& final(self).spec_peers() == old(self).spec_peers().push(None)
                &&& final(self).spec_nodes() == old(self).spec_nodes()
                &&& final(self).spec_deferred() == old(self).spec_deferred()
            },
    {
        if node >= self.nodes.len() {
            return Err(GraphError::UnknownNode);
        }
        match self.find_port(node, name.as_str()) {
            Some(i) => {
                assert(self.ports@[i as int].node == node);
                Err(GraphError::DuplicatePort)
            },
            None => {
                let idx = self.ports.len();
                self.ports.push(Port { node, name, direction, shape });
                let total = self.ports.len();
                assert(idx < total);
                self.peers.push(None);
                proof {
                    let ports = self.ports@;
                    let peers = self.peers@;
                    let op = old(self).ports@;
                    let ope = old(self).peers@;
                    assert forall|i: int| 0 <= i < ports.len() implies (#[trigger] ports[i]).node
                        < self.nodes@.len() by {
                        if i < idx {
                            assert(ports[i] == op[i]);
                        }
                    }
                    assert forall|i: int, j: int|
                        0 <= i < ports.len() && 0 <= j < ports.len() && i != j && (
                        #[trigger] ports[i]).node == (#[trigger] ports[j]).node implies ports[i].name@
                        != ports[j].name@ by {
                        if i < idx && j < idx {
                            assert(ports[i] == op[i]);
                            assert(ports[j] == op[j]);
                        } else if i < idx {
                            assert(ports[i] == op[i]);
                        } else {
                            assert(ports[j] == op[j]);
                        }
                    }
                    assert forall|i: int|
                        #![trigger peers[i]]
                        0 <= i < ports.len() && peers[i] is Some implies {
                        let j = peers[i]->Some_0 as int;
                        &&& 0 <= j < ports.len()
                        &&& j != i
                        &&& peers[j] == Some(i as usize)
                        &&& ports[i].direction != ports[j].direction
                    } by {
                        assert(i < idx);
                        assert(peers[i] == ope[i]);
                        let j = ope[i]->Some_0 as int;
                        assert(ope[j] == Some(i as usize));
                        assert(ports[i] == op[i]);
                        assert(ports[j] == op[j]);
                        assert(peers[j] == ope[j]);
                    }
                    let reqs = self.deferred@;
                    assert forall|k: int| 0 <= k < reqs.len() implies {
                        &&& (#[trigger] reqs[k]).source < self.nodes@.len()
                        &&& reqs[k].sink < ports.len()
                        &&& ports[reqs[k].sink as int].direction == Direction::Input
                    } by {
                        assert(ports[reqs[k].sink as int] == op[reqs[k].sink as int]);
                    }
                }
                Ok(idx)
            },
        }
    }

    /// Links ports `a` and `b` to each other.
    fn connect(&mut self, a: usize, b: usize)
        requires
            old(self).wf(),
            a < old(self).spec_ports().len(),
            b < old(self).spec_ports().len(),
            a != b,
            old(self).spec_peers()[a as int] is None,
            old(self).spec_peers()[b as int] is None,
            old(self).spec_ports()[a as int].direction != old(self).spec_ports()[b as int].direction,
        ensures
            final(self).wf(),
            final(self).spec_peers() == with_link(old(self).spec_peers(), a as int, b as int),
            final(self).spec_nodes() == old(self).spec_nodes(),
            final(self).spec_ports() == old(self).spec_ports(),
            final(self).spec_deferred() == old(self).spec_deferred(),
    {
        self.peers.set(a, Some(b));
        self.peers.set(b, Some(a));
        proof {
            let ports = self.ports@;
            let peers = self.peers@;
            let ope = old(self).peers@;
            assert forall|i: int|
                #![trigger peers[i]]
                0 <= i < ports.len() && peers[i] is Some implies {
                let j = peers[i]->Some_0 as int;
                &&& 0 <= j < ports.len()
                &&& j != i
                &&& peers[j] == Some(i as usize)
                &&& ports[i].direction != ports[j].direction
            } by {
                if i != a && i != b {
                    assert(peers[i] == ope[i]);
                    let j = ope[i]->Some_0 as int;
                    assert(ope[j] == Some(i as usize));
                }
            }
        }
    }

    /// The decision on linking output port `out` to input port `inp`.
    pub fn plan_link(&self, out: usize, inp: usize) -> (r: Result<LinkPlan, GraphError>)
        requires
            self.wf(),
        ensures
            r == link_plan(self.spec_ports(), self.spec_peers(), out as int, inp as int),
    {
        if out >= self.ports.len() || inp >= self.ports.len() {
            return Err(GraphError::UnknownPort);
        }
        if self.ports[out].direction != Direction::Output || self.ports[inp].direction
            != Direction::Input {
            return Err(GraphError::LinkRejected);
        }
        if self.peers[out] == Some(inp) {
            return Ok(LinkPlan::AlreadyLinked);
        }
        if self.peers[out].is_some() || self.peers[inp].is_some() {
            return Err(GraphError::LinkRejected);
        }
        let compatible = match (&self.ports[out].shape, &self.ports[inp].shape) {
            (Some(x), Some(y)) => same_text(x.as_str(), y.as_str()),
            _ => true,
        };
        if !compatible {
            return Err(GraphError::IncompatibleShape);
        }
        Ok(LinkPlan::Connect)
    }

    /// Links output port `out` to input port `inp` at build time. `accepted`
    /// is the framework's answer to the same link; it is consulted only when
    /// the plan is to connect. Linking two ports that are already linked to
    /// each other is a no-op reported as success.
    pub fn link_static(&mut self, out: usize, inp: usize, accepted: bool) -> (r: Result<
        LinkPlan,
        GraphError,
    >)
        requires
            old(self).wf(),
        ensures
            final(self).wf(),
            final(self).spec_nodes() == old(self).spec_nodes(),
            final(self).spec_ports() == old(self).spec_ports(),
            final(self).spec_deferred() == old(self).spec_deferred(),
            ({
                let plan = link_plan(
                    old(self).spec_ports(),
                    old(self).spec_peers(),
                    out as int,
                    inp as int,
                );
                if plan == Ok::<LinkPlan, GraphError>(LinkPlan::Connect) {
                    if accepted {
                        &&& r == plan
                        &&& final(self).spec_peers() == with_link(
                            old(self).spec_peers(),
                            out as int,
                            inp as int,
                        )
                    } else {
                        &&& r == Err::<LinkPlan, GraphError>(GraphError::LinkRejected)
                        &&& final(self).spec_peers() == old(self).spec_peers()
                    }
                } else {
                    &&& r == plan
                    &&& final(self).spec_peers() == old(self).spec_peers()
                }
            }),
    {
        let plan = self.plan_link(out, inp);
        match plan {
            Ok(LinkPlan::Connect) => {
                if accepted {
                    self.connect(out, inp);
                    Ok(LinkPlan::Connect)
                } else {
                    Err(GraphError::LinkRejected)
                }
            },
            _ => plan,
        }
    }

    /// The first unlinked port of `node` with the given direction.
    pub fn free_port(&self, node: usize, direction: Direction) -> (r: Option<usize>)
        requires
            self.wf(),
        ensures
            r matches Some(i) ==> {
                &&& i < self.spec_ports().len()
                &&& self.spec_ports()[i as int].node == node
                &&& self.spec_ports()[i as int].direction == direction
                &&& self.spec_peers()[i as int] is None
                &&& forall|k: int|
                    0 <= k < i ==> !((#[trigger] self.spec_ports()[k]).node == node
                        && self.spec_ports()[k].direction == direction
                        && self.spec_peers()[k] is None)
            },
            r is None ==> forall|k: int|
                0 <= k < self.spec_ports().len() ==> !((#[trigger] self.spec_ports()[k]).node
                    == node && self.spec_ports()[k].direction == direction
                    && self.spec_peers()[k] is None),
    {
        let mut i: usize = 0;
        while i < self.ports.len()
            invariant
                self.wf(),
                i <= self.ports@.len(),
                forall|k: int|
                    0 <= k < i ==> !((#[trigger] self.ports@[k]).node == node
                        && self.ports@[k].direction == direction && self.peers@[k] is None),
            decreases self.ports@.len() - i,
        {
            if self.ports[i].node == node && self.ports[i].direction == direction
                && self.peers[i].is_none() {
                return Some(i);
            }
            i = i + 1;
        }
        None
    }

    /// Links node `src` to node `dst`: the first free output of `src` to the
    /// first free input of `dst`. `accepted` is the framework's answer to the
    /// same link; a refusal leaves the links as they were and is reported as
    /// LinkRejected.
    pub fn link_nodes(&mut self, src: usize, dst: usize, accepted: bool) -> (r: Result<
        (usize, usize),
        GraphError,
    >)
        requires
            old(self).wf(),
        ensures
            final(self).wf(),
            final(self).spec_nodes() == old(self).spec_nodes(),
            final(self).spec_ports() == old(self).spec_ports(),
            final(self).spec_deferred() == old(self).spec_deferred(),
            (forall|k: int| !first_free(old(self).spec_ports(), old(self).spec_peers(), src, Direction::Output, k))
                || (forall|k: int| !first_free(old(self).spec_ports(), old(self).spec_peers(), dst, Direction::Input, k))
                ==> r == Err::<(usize, usize), GraphError>(GraphError::NoFreePort)
                && final(self).spec_peers() == old(self).spec_peers(),
            forall|o: int, i: int|
                #![trigger first_free(old(self).spec_ports(), old(self).spec_peers(), src, Direction::Output, o), first_free(old(self).spec_ports(), old(self).spec_peers(), dst, Direction::Input, i)]
                first_free(old(self).spec_ports(), old(self).spec_peers(), src, Direction::Output, o)
                    && first_free(old(self).spec_ports(), old(self).spec_peers(), dst, Direction::Input, i)
                    ==> match link_plan(old(self).spec_ports(), old(self).spec_peers(), o, i) {
                    Ok(LinkPlan::Connect) => if accepted {
                        &&& r == Ok::<(usize, usize), GraphError>((o as usize, i as usize))
                        &&& final(self).spec_peers() == with_link(old(self).spec_peers(), o, i)
                    } else {
                        &&& r == Err::<(usize, usize), GraphError>(GraphError::LinkRejected)
                        &&& final(self).spec_peers() == old(self).spec_peers()
                    },
                    Ok(LinkPlan::AlreadyLinked) => r == Ok::<(usize, usize), GraphError>(
                        (o as usize, i as usize),
                    ) && final(self).spec_peers() == old(self).spec_peers(),
                    Err(e) => r == Err::<(usize, usize), GraphError>(e) && final(
                        self).spec_peers() == old(self).spec_peers(),
                },
    {
        let o = match self.free_port(src, Direction::Output) {
            Some(o) => o,
            None => {
                proof {
                    assert forall|k: int|
                        !first_free(self.spec_ports(), self.spec_peers(), src, Direction::Output, k) by {
                        if first_free(self.spec_ports(), self.spec_peers(), src, Direction::Output, k) {
                            assert(!((self.spec_ports()[k]).node == src
                                && self.spec_ports()[k].direction == Direction::Output
                                && self.spec_peers()[k] is None));
                        }
                    }
                }
                return Err(GraphError::NoFreePort);
            },
        };
        let i = match self.free_port(dst, Direction::Input) {
            Some(i) => i,
            None => {
                proof {
                    assert forall|k: int|
                        !first_free(self.spec_ports(), self.spec_peers(), dst, Direction::Input, k) by {
                        if first_free(self.spec_ports(), self.spec_peers(), dst, Direction::Input, k) {
                            assert(!((self.spec_ports()[k]).node == dst
                                && self.spec_ports()[k].direction == Direction::Input
                                && self.spec_peers()[k] is None));
                        }
                    }
                }
                return Err(GraphError::NoFreePort);
            },
        };
        proof {
            let ports = self.spec_ports();
            let peers = self.spec_peers();
            assert(first_free(ports, peers, src, Direction::Output, o as int));
            assert(first_free(ports, peers, dst, Direction::Input, i as int));
            assert forall|a: int| first_free(ports, peers, src, Direction::Output, a) implies a
                == o by {
                if a < o {
                    assert(!((ports[a]).node == src && ports[a].direction == Direction::Output
                        && peers[a] is None));
                } else if a > o {
                    assert(!((ports[o as int]).node == src && ports[o as int].direction
                        == Direction::Output && peers[o as int] is None));
                }
            }
            assert forall|a: int| first_free(ports, peers, dst, Direction::Input, a) implies a
                == i by {
                if a < i {
                    assert(!((ports[a]).node == dst && ports[a].direction == Direction::Input
                        && peers[a] is None));
                } else if a > i {
                    assert(!((ports[i as int]).node == dst && ports[i as int].direction
                        == Direction::Input && peers[i as int] is None));
                }
            }
        }
        match self.link_static(o, i, accepted) {
            Ok(_) => Ok((o, i)),
            Err(e) => Err(e),
        }
    }

    /// Registers a deferred link: when `source` later exposes an output whose
    /// shape starts with `prefix`, that output is linked to input port `sink`.
    pub fn request_deferred_link(&mut self, source: usize, sink: usize, prefix: String) -> (r:
        Result<usize, GraphError>)
        requires
            old(self).wf(),
        ensures
            final(self).wf(),
            final(self).spec_nodes() == old(self).spec_nodes(),
            final(self).spec_ports() == old(self).spec_ports(),
            final(self).spec_peers() == old(self).spec_peers(),
            source >= old(self).spec_nodes().len() ==> r == Err::<usize, GraphError>(
                GraphError::UnknownNode,
            ) && final(self).spec_deferred() == old(self).spec_deferred(),
            source < old(self).spec_nodes().len() && sink >= old(self).spec_ports().len() ==> r
                == Err::<usize, GraphError>(GraphError::UnknownPort) && final(self).spec_deferred()
                == old(self).spec_deferred(),
            source < old(self).spec_nodes().len() && sink < old(self).spec_ports().len()
                && old(self).spec_ports()[sink as int].direction != Direction::Input ==> r == Err::<
                usize,
                GraphError,
            >(GraphError::LinkRejected) && final(self).spec_deferred() == old(self).spec_deferred(),
            source < old(self).spec_nodes().len() && sink < old(self).spec_ports().len()
                && old(self).spec_ports()[sink as int].direction == Direction::Input ==> r == Ok::<
                usize,
                GraphError,
            >(old(self).spec_deferred().len() as usize) && old(self).spec_deferred().len() < usize::MAX
                && final(self).spec_deferred() == old(self).spec_deferred().push(DeferredLink { source, sink, prefix }),
    {
        if source >= self.nodes.len() {
            return Err(GraphError::UnknownNode);
        }
        if sink >= self.ports.len() {
            return Err(GraphError::UnknownPort);
        }
        if self.ports[sink].direction != Direction::Input {
            return Err(GraphError::LinkRejected);
        }
        let idx = self.deferred.len();
        self.deferred.push(DeferredLink { source, sink, prefix });
        let total = self.deferred.len();
        assert(idx < total);
        proof {
            let reqs = self.deferred@;
            assert forall|k: int| 0 <= k < reqs.len() implies {
                &&& (#[trigger] reqs[k]).source < self.nodes@.len()
                &&& reqs[k].sink < self.ports@.len()
                &&& self.ports@[reqs[k].sink as int].direction == Direction::Input
            } by {
                if k < idx {
                    assert(reqs[k] == old(self).deferred@[k]);
                }
            }
        }
        Ok(idx)
    }

    /// The resolver's decision on output `port`, just exposed, for deferred
    /// link `request`.
    pub fn resolve(&self, request: usize, port: usize) -> (r: Result<Resolution, GraphError>)
        requires
            self.wf(),
        ensures
            r == resolution(
                self.spec_ports(),
                self.spec_peers(),
                self.spec_deferred(),
                request as int,
                port as int,
            ),
    {
        if request >= self.deferred.len() {
            return Err(GraphError::UnknownRequest);
        }
        if port >= self.ports.len() {
            return Err(GraphError::UnknownPort);
        }
        let sink = self.deferred[request].sink;
        if self.peers[sink].is_some() {
            return Ok(Resolution::AlreadySatisfied);
        }
        if self.ports[port].node != self.deferred[request].source || self.ports[port].direction
            != Direction::Output || self.peers[port].is_some() {
            return Ok(Resolution::Ignored);
        }
        match &self.ports[port].shape {
            Some(shape) => {
                if starts_with(shape.as_str(), self.deferred[request].prefix.as_str()) {
                    Ok(Resolution::Connect)
                } else {
                    Ok(Resolution::Ignored)
                }
            },
            None => Ok(Resolution::Ignored),
        }
    }

    /// Handles the notification that output `port` became available, for
    /// deferred link `request`. `accepted` is the framework's answer to the
    /// link, consulted only when the resolver decides to connect; a refusal
    /// leaves the graph as it was and is reported as LinkRejected.
    pub fn on_port_added(&mut self, request: usize, port: usize, accepted: bool) -> (r: Result<
        Resolution,
        GraphError,
    >)
        requires
            old(self).wf(),
        ensures
            final(self).wf(),
            final(self).spec_nodes() == old(self).spec_nodes(),
            final(self).spec_ports() == old(self).spec_ports(),
            final(self).spec_deferred() == old(self).spec_deferred(),
            final(self).spec_peers() == peers_after_notice(
                old(self).spec_ports(),
                old(self).spec_peers(),
                old(self).spec_deferred(),
                request as int,
                port as int,
                accepted,
            ),
            ({
                let d = resolution(
                    old(self).spec_ports(),
                    old(self).spec_peers(),
                    old(self).spec_deferred(),
                    request as int,
                    port as int,
                );
                if d == Ok::<Resolution, GraphError>(Resolution::Connect) {
                    if accepted {
                        &&& r == d
                        &&& final(self).spec_peers() == with_link(
                            old(self).spec_peers(),
                            port as int,
                            old(self).spec_deferred()[request as int].sink as int,
                        )
                    } else {
                        &&& r == Err::<Resolution, GraphError>(GraphError::LinkRejected)
                        &&& final(self).spec_peers() == old(self).spec_peers()
                    }
                } else {
                    &&& r == d
                    &&& final(self).spec_peers() == old(self).spec_peers()
                }
            }),
    {
        let d = self.resolve(request, port);
        match d {
            Ok(Resolution::Connect) => {
                if accepted {
                    let sink = self.deferred[request].sink;
                    self.connect(port, sink);
                    d
                } else {
                    Err(GraphError::LinkRejected)
                }
            },
            _ => d,
        }
    }

    /// Declares that `node` has a property named `key`, as its kind's schema
    /// says. Declaring a property twice changes nothing.
    pub fn declare_property(&mut self, node: usize, key: String) -> (r: Result<(), GraphError>)
        requires
            old(self).wf(),
        ensures
            final(self).wf(),
            final(self).spec_nodes() == old(self).spec_nodes(),
            final(self).spec_ports() == old(self).spec_ports(),
            final(self).spec_peers() == old(self).spec_peers(),
            final(self).spec_deferred() == old(self).spec_deferred(),
            final(self).spec_props() == old(self).spec_props(),
            node >= old(self).spec_nodes().len() ==> r == Err::<(), GraphError>(
                GraphError::UnknownNode,
            ) && final(self).spec_schema() == old(self).spec_schema(),
            node < old(self).spec_nodes().len() ==> r is Ok,
            node < old(self).spec_nodes().len() && declares(old(self).spec_schema(), node, key@)
                ==> final(self).spec_schema() == old(self).spec_schema(),
            node < old(self).spec_nodes().len() && !declares(old(self).spec_schema(), node, key@)
                ==> final(self).spec_schema() == old(self).spec_schema().push(
                PropertyKey { node, key },
            ),
    {
        if node >= self.nodes.len() {
            return Err(GraphError::UnknownNode);
        }
        match self.find_declared(node, key.as_str()) {
            Some(_) => Ok(()),
            None => {
                self.schema.push(PropertyKey { node, key });
                Ok(())
            },
        }
    }

    fn find_declared(&self, node: usize, key: &str) -> (r: Option<usize>)
        ensures
            r is Some <==> declares(self.schema@, node, key@),
    {
        let mut i: usize = 0;
        while i < self.schema.len()
            invariant
                i <= self.schema@.len(),
                forall|k: int|
                    0 <= k < i ==> !((#[trigger] self.schema@[k]).node == node
                        && self.schema@[k].key@ == key@),
            decreases self.schema@.len() - i,
        {
            if self.schema[i].node == node && same_text(self.schema[i].key.as_str(), key) {
                return Some(i);
            }
            i = i + 1;
        }
        None
    }

    /// The first entry holding property `key` of `node`, if it was set.
    fn find_property(&self, node: usize, key: &str) -> (r: Option<usize>)
        ensures
            r matches Some(i) ==> holds(self.props@, i as int, node, key@) && forall|k: int|
                0 <= k < i ==> !holds(self.props@, k, node, key@),
            r is None ==> forall|i: int| !holds(self.props@, i, node, key@),
    {
        let mut i: usize = 0;
        while i < self.props.len()
            invariant
                i <= self.props@.len(),
                forall|k: int| 0 <= k < i ==> !holds(self.props@, k, node, key@),
            decreases self.props@.len() - i,
        {
            if self.props[i].node == node && same_text(self.props[i].key.as_str(), key) {
                return Some(i);
            }
            i = i + 1;
        }
        None
    }

    /// Assigns `value` to property `key` of `node`, replacing an earlier
    /// value. Fails with UnknownNode for a node not in the graph and with
    /// UnknownProperty for a name the node does not declare.
    pub fn set_property(&mut self, node: usize, key: String, value: String) -> (r: Result<
        (),
        GraphError,
    >)
        requires
            old(self).wf(),
        ensures
            final(self).wf(),
            final(self).spec_nodes() == old(self).spec_nodes(),
            final(self).spec_ports() == old(self).spec_ports(),
            final(self).spec_peers() == old(self).spec_peers(),
            final(self).spec_deferred() == old(self).spec_deferred(),
            final(self).spec_schema() == old(self).spec_schema(),
            node >= old(self).spec_nodes().len() ==> r == Err::<(), GraphError>(
                GraphError::UnknownNode,
            ) && final(self).spec_props() == old(self).spec_props(),
            node < old(self).spec_nodes().len() && !declares(old(self).spec_schema(), node, key@)
                ==> r == Err::<(), GraphError>(GraphError::UnknownProperty) && final(self).spec_props() == old(self).spec_props(),
            node < old(self).spec_nodes().len() && declares(old(self).spec_schema(), node, key@)
                ==> {
                &&& r is Ok
                &&& (exists|i: int| holds(old(self).spec_props(), i, node, key@)) ==> exists|
                    i: int,
                | #![trigger holds(old(self).spec_props(), i, node, key@)]
                    holds(old(self).spec_props(), i, node, key@) && (forall|k: int|
                        0 <= k < i ==> !holds(old(self).spec_props(), k, node, key@)) && final(
                        self).spec_props() == old(self).spec_props().update(
                        i,
                        Property { node, key, value },
                    )
                &&& !(exists|i: int| holds(old(self).spec_props(), i, node, key@)) ==> final(self).spec_props() == old(self).spec_props().push(Property { node, key, value })
            },
    {
        if node >= self.nodes.len() {
            return Err(GraphError::UnknownNode);
        }
        if self.find_declared(node, key.as_str()).is_none() {
            return Err(GraphError::UnknownProperty);
        }
        match self.find_property(node, key.as_str()) {
            Some(i) => {
                self.props.set(i, Property { node, key, value });
            },
            None => {
                self.props.push(Property { node, key, value });
            },
        }
        Ok(())
    }

    /// The value of property `key` of `node`, if it was set.
    pub fn property(&self, node: usize, key: &str) -> (r: Option<String>)
        ensures
            r matches Some(v) ==> exists|i: int|
                #![trigger holds(self.spec_props(), i, node, key@)]
                holds(self.spec_props(), i, node, key@) && (forall|k: int|
                    0 <= k < i ==> !holds(self.spec_props(), k, node, key@))
                    && self.spec_props()[i].value@ == v@,
            r is None ==> forall|i: int| !holds(self.spec_props(), i, node, key@),
    {
        match self.find_property(node, key) {
            Some(i) => {
                let v = self.props[i].value.clone();
                assert(holds(self.spec_props(), i as int, node, key@));
                Some(v)
            },
            None => None,
        }
    }

    /// The port linked to `port`, if any.
    pub fn peer(&self, port: usize) -> (r: Option<usize>)
        requires
            self.wf(),
            port < self.spec_ports().len(),
        ensures
            r == self.spec_peers()[port as int],
    {
        self.peers[port]
    }
}

} // verus!
