//! Mesh membership and packet dispatch.
//!
//! A [`MeshNetwork`] keeps the table of the nodes it has been told of and
//! takes in the packets that arrive: liveness signals and status reports
//! update the table, everything else is handed on. Times are wall-clock
//! milliseconds since the Unix epoch.

use vstd::prelude::*;
use std::collections::HashMap;
use crate::clock::wall_clock_ms;
use crate::registry::{
    distinct_keys, has_key, lemma_upsert, lookup, slot, upsert, Registry,
};
use crate::text::{lowercase, same_text, to_lowercase};

verus! {

/// How long after its last liveness signal a node counts as active, in
/// milliseconds.
pub const LIVENESS_WINDOW_MS: u64 = 5000;

/// Period of the broadcaster's liveness signal, in milliseconds.
pub const PING_PERIOD_MS: u64 = 10;

/// Number of packets that may wait between producer and dispatcher.
pub const QUEUE_CAPACITY: usize = 32;

/// The part a node plays in the mesh.
#[derive(Debug, Clone, Copy, PartialEq, Eq, Structural)]
pub enum NodeRole {
    /// Originates the audio stream.
    Master,
    /// Relays the stream.
    Repeater,
    /// Receives and plays the stream.
    Sink,
}

/// Name of the broadcaster's role.
pub const ROLE_MASTER: &'static str = "master";

/// Name of a relay's role.
pub const ROLE_REPEATER: &'static str = "repeater";

/// Name of a receiver's role.
pub const ROLE_SINK: &'static str = "sink";

/// The role that a lower-case name stands for.
pub open spec fn role_named(name: Seq<char>) -> Option<NodeRole> {
    if name == ROLE_MASTER@ {
        Some(NodeRole::Master)
    } else if name == ROLE_REPEATER@ {
        Some(NodeRole::Repeater)
    } else if name == ROLE_SINK@ {
        Some(NodeRole::Sink)
    } else {
        None
    }
}

impl NodeRole {
    /// The role that has exactly this name.
    pub fn from_lowercase_name(name: &str) -> (role: Option<NodeRole>)
        ensures
            role == role_named(name@),
    {
        if same_text(name, ROLE_MASTER) {
            Some(NodeRole::Master)
        } else if same_text(name, ROLE_REPEATER) {
            Some(NodeRole::Repeater)
        } else if same_text(name, ROLE_SINK) {
            Some(NodeRole::Sink)
        } else {
            None
        }
    }

    /// The role that `name` stands for, in whatever case it is written;
    /// `None` where it is the name of no role.
    pub fn from_name(name: &str) -> (role: Option<NodeRole>)
        ensures
            role == role_named(lowercase(name@)),
    {
        let lowered = to_lowercase(name);
        Self::from_lowercase_name(lowered.as_str())
    }

    /// The name of the role.
    pub fn name(&self) -> (name: &'static str)
        ensures
            role_named(name@) == Some(*self),
    {
        proof {
            reveal_strlit("master");
            reveal_strlit("repeater");
            reveal_strlit("sink");
            assert(ROLE_MASTER@.len() == 6);
            assert(ROLE_REPEATER@.len() == 8);
            assert(ROLE_SINK@.len() == 4);
        }
        match self {
            NodeRole::Master => ROLE_MASTER,
            NodeRole::Repeater => ROLE_REPEATER,
            NodeRole::Sink => ROLE_SINK,
        }
    }
}

/// A node of the mesh, as the local node knows it.
#[derive(Debug)]
pub struct Node {
    /// Stable identifier, unique in the network.
    pub id: String,
    /// The part the node plays.
    pub role: NodeRole,
    /// When the last liveness signal arrived; `None` until the first.
    pub last_ping: Option<u64>,
    /// Last measured latency in milliseconds.
    pub latency: u32,
    /// Free part of the node's buffer, in percent.
    pub buffer_state: u8,
}

impl Clone for Node {
    fn clone(&self) -> (copy: Self)
        ensures
            copy == *self,
    {
        Node {
            id: self.id.clone(),
            role: self.role,
            last_ping: self.last_ping,
            latency: self.latency,
            buffer_state: self.buffer_state,
        }
    }
}

impl Node {
    /// Whether the node counts as active at `now_ms`: a liveness signal has
    /// arrived, and less than the liveness window lies between it and now.
    pub open spec fn active_at(&self, now_ms: u64) -> bool {
        self.last_ping matches Some(seen) && now_ms - seen < LIVENESS_WINDOW_MS
    }

    /// The node with a liveness signal taken in at `now_ms`.
    pub open spec fn seen_at(self, now_ms: u64) -> Node {
        Node { last_ping: Some(now_ms), ..self }
    }

    /// The node with a status report taken in.
    pub open spec fn reporting(self, buffer: u8, latency: u32) -> Node {
        Node { buffer_state: buffer, latency, ..self }
    }

    /// A node that has not been heard of yet: no liveness signal, no latency,
    /// its buffer all free.
    pub fn new(id: &str, role: NodeRole) -> (node: Self)
        ensures
            node.id@ == id@,
            node.role == role,
            node.last_ping is None,
            node.latency == 0,
            node.buffer_state == 100,
            forall|now_ms: u64| !node.active_at(now_ms),
    {
        Node { id: id.to_string(), role, last_ping: None, latency: 0, buffer_state: 100 }
    }

    /// Takes in a liveness signal that arrives at `now_ms`.
    pub fn update_ping_at(&mut self, now_ms: u64)
        ensures
            *final(self) == old(self).seen_at(now_ms),
            final(self).active_at(now_ms),
    {
        self.last_ping = Some(now_ms);
    }

    /// Takes in a liveness signal that arrives now, by the wall clock.
    pub fn update_ping(&mut self)
        ensures
            exists|now_ms: u64| *final(self) == old(self).seen_at(now_ms),
    {
        let now_ms = wall_clock_ms();
        self.update_ping_at(now_ms);
    }

    /// Records how much of the node's buffer is free, in percent.
    pub fn update_buffer_state(&mut self, state: u8)
        ensures
            *final(self) == (Node { buffer_state: state, ..*old(self) }),
    {
        self.buffer_state = state;
    }

    /// Records the node's measured latency, in milliseconds.
    pub fn set_latency(&mut self, latency: u32)
        ensures
            *final(self) == (Node { latency, ..*old(self) }),
    {
        self.latency = latency;
    }

    /// The node's last measured latency, in milliseconds.
    pub fn get_latency(&self) -> (latency: u32)
        ensures
            latency == self.latency,
    {
        self.latency
    }

    /// Whether the node counts as active at `now_ms`.
    pub fn is_active_at(&self, now_ms: u64) -> (active: bool)
        ensures
            active == self.active_at(now_ms),
    {
        match self.last_ping {
            Some(seen) => now_ms < seen || now_ms - seen < LIVENESS_WINDOW_MS,
            None => false,
        }
    }

    /// Whether the node counts as active now, by the wall clock. A node that
    /// has sent no liveness signal is not.
    pub fn is_active(&self) -> (active: bool)
        ensures
            exists|now_ms: u64| active == self.active_at(now_ms),
            self.last_ping is None ==> !active,
    {
        let now_ms = wall_clock_ms();
        self.is_active_at(now_ms)
    }
}

/// The liveness window: a node that was never heard of is inactive; one that
/// was heard of is active from the signal until the window has passed, and
/// inactive from then on.
pub proof fn lemma_liveness_window(node: Node, now_ms: u64)
    ensures
        node.last_ping is None ==> !node.active_at(now_ms),
        node.last_ping matches Some(seen) ==> (node.active_at(now_ms) <==> now_ms < seen
            + LIVENESS_WINDOW_MS),
        node.seen_at(now_ms).active_at(now_ms),
        forall|later: u64|
            later >= now_ms + LIVENESS_WINDOW_MS ==> !node.seen_at(now_ms).active_at(later),
{
}

/// A message of the mesh.
#[derive(Debug)]
pub enum MeshPacket {
    /// Liveness signal of `source`, sent at `timestamp` by the sender's clock.
    Ping { source: String, timestamp: u64 },
    /// A playback command and its parameters.
    Command { cmd_type: String, params: HashMap<String, String> },
    /// Status report of a node.
    Status { node_id: String, buffer: u8, latency: u32 },
    /// The broadcaster's time.
    TimeBeacon { master_time: u64 },
    /// The broadcaster's time, for the named nodes to resynchronize on.
    EmergencySync { master_time: u64, target_nodes: Vec<String> },
}

impl MeshPacket {
    /// Whether `other` says the same as this packet: the same kind of
    /// packet with the same fields, parameters and target nodes.
    pub open spec fn says_the_same(&self, other: &MeshPacket) -> bool {
        match (self, other) {
            (
                MeshPacket::Command { cmd_type, params },
                MeshPacket::Command { cmd_type: other_type, params: other_params },
            ) => cmd_type == other_type && params@ == other_params@,
            (
                MeshPacket::EmergencySync { master_time, target_nodes },
                MeshPacket::EmergencySync { master_time: other_time, target_nodes: other_nodes },
            ) => master_time == other_time && target_nodes@ == other_nodes@,
            _ => self == other,
        }
    }
}

impl Clone for MeshPacket {
    fn clone(&self) -> (copy: Self)
        ensures
            self.says_the_same(&copy),
    {
        match self {
            MeshPacket::Ping { source, timestamp } => MeshPacket::Ping {
                source: source.clone(),
                timestamp: *timestamp,
            },
            MeshPacket::Command { cmd_type, params } => MeshPacket::Command {
                cmd_type: cmd_type.clone(),
                params: params.clone(),
            },
            MeshPacket::Status { node_id, buffer, latency } => MeshPacket::Status {
                node_id: node_id.clone(),
                buffer: *buffer,
                latency: *latency,
            },
            MeshPacket::TimeBeacon { master_time } => MeshPacket::TimeBeacon {
                master_time: *master_time,
            },
            MeshPacket::EmergencySync { master_time, target_nodes } => MeshPacket::EmergencySync {
                master_time: *master_time,
                target_nodes: target_nodes.clone(),
            },
        }
    }
}

/// What is left to do with a packet once the node table has seen it.
#[derive(Debug)]
pub enum Forward {
    /// Nothing: the packet was a status report.
    Nothing,
    /// Report how long a liveness signal of `source` was under way, in
    /// milliseconds. The time is negative where the clocks disagree.
    TransitLatency { source: String, latency_ms: i128 },
    /// Hand the broadcaster's time to the sync manager.
    Beacon { master_time: u64 },
    /// Have the sync manager resynchronize on the broadcaster's time.
    Resync { master_time: u64, target_nodes: Vec<String> },
    /// Hand the command to whoever carries commands out.
    Command { cmd_type: String, params: HashMap<String, String> },
}

/// The entries after the node filed under `id`, if there is one, became
/// `change` of what it was.
pub open spec fn with_node_changed(
    entries: Seq<(Seq<char>, Node)>,
    id: Seq<char>,
    change: spec_fn(Node) -> Node,
) -> Seq<(Seq<char>, Node)> {
    if has_key(entries, id) {
        entries.update(slot(entries, id), (id, change(entries[slot(entries, id)].1)))
    } else {
        entries
    }
}

/// The node table after `packet` arrived at `now_ms`: a liveness signal
/// refreshes its source, a status report updates its node, and a node that
/// is not in the table is not put there. Other packets leave the table alone.
pub open spec fn table_after(
    entries: Seq<(Seq<char>, Node)>,
    packet: MeshPacket,
    now_ms: u64,
) -> Seq<(Seq<char>, Node)> {
    match packet {
        MeshPacket::Ping { source, timestamp } => with_node_changed(
            entries,
            source@,
            |node: Node| node.seen_at(now_ms),
        ),
        MeshPacket::Status { node_id, buffer, latency } => with_node_changed(
            entries,
            node_id@,
            |node: Node| node.reporting(buffer, latency),
        ),
        _ => entries,
    }
}

/// What is left to do with `packet`, arrived at `now_ms`.
pub open spec fn forward_of(packet: MeshPacket, now_ms: u64) -> Forward {
    match packet {
        MeshPacket::Ping { source, timestamp } => Forward::TransitLatency {
            source,
            latency_ms: (now_ms - timestamp) as i128,
        },
        MeshPacket::Status { node_id, buffer, latency } => Forward::Nothing,
        MeshPacket::TimeBeacon { master_time } => Forward::Beacon { master_time },
        MeshPacket::EmergencySync { master_time, target_nodes } => Forward::Resync {
            master_time,
            target_nodes,
        },
        MeshPacket::Command { cmd_type, params } => Forward::Command { cmd_type, params },
    }
}

/// The nodes among `entries` that are active at `now_ms`, in table order.
pub open spec fn active_nodes(entries: Seq<(Seq<char>, Node)>, now_ms: u64) -> Seq<Node>
    decreases entries.len(),
{
    if entries.len() == 0 {
        Seq::empty()
    } else if entries.last().1.active_at(now_ms) {
        active_nodes(entries.drop_last(), now_ms).push(entries.last().1)
    } else {
        active_nodes(entries.drop_last(), now_ms)
    }
}

/// The ids of the nodes among `entries` that are active at `now_ms`, in
/// table order.
pub open spec fn active_ids(entries: Seq<(Seq<char>, Node)>, now_ms: u64) -> Seq<Seq<char>> {
    active_nodes(entries, now_ms).map_values(|node: Node| node.id@)
}

/// Every entry is filed under the id of its node.
pub open spec fn filed_by_id(entries: Seq<(Seq<char>, Node)>) -> bool {
    forall|i: int| 0 <= i < entries.len() ==> (#[trigger] entries[i]).0 == entries[i].1.id@
}

/// No packet adds a node to the table or takes one from it: after any
/// packet the table holds the same ids in the same order, each node still
/// filed under its own id.
pub proof fn lemma_dispatch_keeps_membership(
    entries: Seq<(Seq<char>, Node)>,
    packet: MeshPacket,
    now_ms: u64,
)
    requires
        distinct_keys(entries),
        filed_by_id(entries),
    ensures
        table_after(entries, packet, now_ms).len() == entries.len(),
        forall|i: int|
            0 <= i < entries.len() ==> (#[trigger] table_after(entries, packet, now_ms)[i]).0
                == entries[i].0,
        distinct_keys(table_after(entries, packet, now_ms)),
        filed_by_id(table_after(entries, packet, now_ms)),
{
    match packet {
        MeshPacket::Ping { source, timestamp } => {
            if has_key(entries, source@) {
                assert(entries[slot(entries, source@)].0 == source@);
            }
        },
        MeshPacket::Status { node_id, buffer, latency } => {
            if has_key(entries, node_id@) {
                assert(entries[slot(entries, node_id@)].0 == node_id@);
            }
        },
        _ => {},
    }
}

/// The liveness signal that the local node owes the mesh at `now_ms`: one
/// from a broadcaster, none from any other node.
pub open spec fn heartbeat_of(local: Node, now_ms: u64) -> Option<MeshPacket> {
    if local.role == NodeRole::Master {
        Some(MeshPacket::Ping { source: local.id, timestamp: now_ms })
    } else {
        None
    }
}

/// The local node and the table of the nodes it knows.
pub struct MeshNetwork {
    local_node: Node,
    nodes: Registry<Node>,
}

impl MeshNetwork {
    #[verifier::type_invariant]
    spec fn inv(self) -> bool {
        filed_by_id(self.nodes.entries())
    }

    /// The local node.
    pub closed spec fn local(&self) -> Node {
        self.local_node
    }

    /// The node table: each node under its id, in order of registration.
    pub closed spec fn nodes(&self) -> Seq<(Seq<char>, Node)> {
        self.nodes.entries()
    }

    /// A network that knows no node but the local one.
    pub fn new(local_node: Node) -> (network: Self)
        ensures
            network.local() == local_node,
            network.nodes() == Seq::<(Seq<char>, Node)>::empty(),
    {
        MeshNetwork { local_node, nodes: Registry::new() }
    }

    /// The local node.
    pub fn local_node(&self) -> (node: &Node)
        ensures
            *node == self.local(),
    {
        &self.local_node
    }

    /// The node filed under `id`, if there is one.
    pub fn get_node(&self, id: &str) -> (node: Option<&Node>)
        ensures
            match node {
                Some(node) => lookup(self.nodes(), id@) == Some(*node) && node.id@ == id@,
                None => lookup(self.nodes(), id@) is None,
            },
    {
        proof {
            use_type_invariant(self);
        }
        self.nodes.get(id)
    }

    /// How many nodes are on file.
    pub fn node_count(&self) -> (count: usize)
        ensures
            count == self.nodes().len(),
    {
        self.nodes.len()
    }

    /// Files `node` under its id, in place of any node filed there before.
    /// Filing the same node again changes nothing.
    pub fn register_node(&mut self, node: Node)
        ensures
            final(self).nodes() == upsert(old(self).nodes(), node.id@, node),
            final(self).local() == old(self).local(),
            distinct_keys(old(self).nodes()),
            distinct_keys(final(self).nodes()),
            filed_by_id(final(self).nodes()),
    {
        proof {
            use_type_invariant(&*self);
            use_type_invariant(&self.nodes);
            lemma_upsert(self.nodes.entries(), node.id@, node);
        }
        let mut nodes = Registry::new();
        core::mem::swap(&mut self.nodes, &mut nodes);
        nodes.insert(node.id.clone(), node);
        self.nodes = nodes;
    }

    /// The nodes that are active at `now_ms`, in table order.
    pub fn get_active_nodes_at(&self, now_ms: u64) -> (active: Vec<Node>)
        ensures
            active@ == active_nodes(self.nodes(), now_ms),
    {
        let mut active: Vec<Node> = Vec::new();
        let count = self.nodes.len();
        let mut i: usize = 0;
        while i < count
            invariant
                i <= count,
                count == self.nodes().len(),
                active@ == active_nodes(self.nodes().take(i as int), now_ms),
            decreases count - i,
        {
            let node = self.nodes.value_at(i);
            assert(self.nodes().take(i + 1).drop_last() =~= self.nodes().take(i as int));
            if node.is_active_at(now_ms) {
                active.push(node.clone());
            }
            i += 1;
        }
        assert(self.nodes().take(count as int) =~= self.nodes());
        active
    }

    /// The nodes that are active now, by the wall clock. The list is made
    /// anew at every call.
    pub fn get_active_nodes(&self) -> (active: Vec<Node>)
        ensures
            exists|now_ms: u64| active@ == active_nodes(self.nodes(), now_ms),
    {
        let now_ms = wall_clock_ms();
        self.get_active_nodes_at(now_ms)
    }

    /// Takes in `packet`, arrived at `now_ms`, and says what is left to do
    /// with it.
    pub fn dispatch(&mut self, packet: MeshPacket, now_ms: u64) -> (forward: Forward)
        ensures
            final(self).nodes() == table_after(old(self).nodes(), packet, now_ms),
            final(self).local() == old(self).local(),
            forward == forward_of(packet, now_ms),
            distinct_keys(old(self).nodes()),
            filed_by_id(old(self).nodes()),
    {
        proof {
            use_type_invariant(&*self);
            use_type_invariant(&self.nodes);
        }
        match packet {
            MeshPacket::Ping { source, timestamp } => {
                let mut nodes = Registry::new();
                core::mem::swap(&mut self.nodes, &mut nodes);
                match nodes.position(source.as_str()) {
                    Some(i) => {
                        let mut node = nodes.value_at(i).clone();
                        node.update_ping_at(now_ms);
                        nodes.set_value_at(i, node);
                    },
                    None => {},
                }
                self.nodes = nodes;
                Forward::TransitLatency { source, latency_ms: now_ms as i128 - timestamp as i128 }
            },
            MeshPacket::Status { node_id, buffer, latency } => {
                let mut nodes = Registry::new();
                core::mem::swap(&mut self.nodes, &mut nodes);
                match nodes.position(node_id.as_str()) {
                    Some(i) => {
                        let mut node = nodes.value_at(i).clone();
                        node.update_buffer_state(buffer);
                        node.set_latency(latency);
                        nodes.set_value_at(i, node);
                    },
                    None => {},
                }
                self.nodes = nodes;
                Forward::Nothing
            },
            MeshPacket::TimeBeacon { master_time } => Forward::Beacon { master_time },
            MeshPacket::EmergencySync { master_time, target_nodes } => Forward::Resync {
                master_time,
                target_nodes,
            },
            MeshPacket::Command { cmd_type, params } => Forward::Command { cmd_type, params },
        }
    }

    /// The liveness signal that the local node owes the mesh at `now_ms`.
    /// A broadcaster owes one every [`PING_PERIOD_MS`] milliseconds.
    pub fn heartbeat(&self, now_ms: u64) -> (ping: Option<MeshPacket>)
        ensures
            ping == heartbeat_of(self.local(), now_ms),
    {
        if self.local_node.role == NodeRole::Master {
            Some(MeshPacket::Ping { source: self.local_node.id.clone(), timestamp: now_ms })
        } else {
            None
        }
    }
}

} // verus!
