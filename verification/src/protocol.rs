//! The orchestrator: one sync manager, one mesh network and one audio
//! synchronizer per process, and the wiring between them.

use vstd::prelude::*;
use vstd::string::StrSliceExecFns;
use crate::clock::wall_clock_ms;
use crate::mesh::{
    active_ids, forward_of, table_after, Forward, MeshNetwork, MeshPacket, Node, NodeRole,
};
use crate::registry::upsert;
use crate::sync::{
    beacon_offset, mean_latency, not_synchronized_reason, optimal_buffer, AudioSync, SyncManager,
};
use crate::text::{fresh_identifier, join};

verus! {

/// Number of random characters in the id of a node that was given none.
pub const RANDOM_ID_LEN: usize = 8;

/// Reason given when playback is asked of a protocol that has not been
/// initialized.
pub open spec fn no_audio_reason() -> Seq<char> {
    "Sincronizzatore audio non inizializzato"@
}

/// Reason given when the mesh is asked of a protocol that has not been
/// initialized.
pub open spec fn no_mesh_reason() -> Seq<char> {
    "Rete mesh non inizializzata"@
}

/// Whether `id` is `prefix` followed by the random characters of a
/// generated id.
pub open spec fn is_generated_id(prefix: Seq<char>, id: Seq<char>) -> bool {
    id.len() == prefix.len() + RANDOM_ID_LEN && id.subrange(0, prefix.len() as int) == prefix
}

/// `prefix` followed by freshly drawn random characters.
pub fn generated_id(prefix: &str) -> (id: String)
    ensures
        is_generated_id(prefix@, id@),
{
    let drawn = fresh_identifier();
    let id = join(prefix, drawn.as_str().substring_ascii(0, RANDOM_ID_LEN));
    assert(id@.subrange(0, prefix@.len() as int) =~= prefix@);
    id
}

/// What a packet arrived at `now_ms` does to the sync manager: a time
/// beacon replaces the offset, an emergency resynchronization also drops the
/// latencies on record, any other packet leaves the manager as it is.
pub open spec fn sync_after(
    before: SyncManager,
    after: SyncManager,
    packet: MeshPacket,
    now_ms: u64,
) -> bool {
    match packet {
        MeshPacket::TimeBeacon { master_time } => {
            &&& after.synchronized()
            &&& after.time_offset() == beacon_offset(master_time, now_ms)
            &&& after.last_beacon() == Some(now_ms)
            &&& after.latencies() == before.latencies()
        },
        MeshPacket::EmergencySync { master_time, target_nodes } => {
            &&& after.synchronized()
            &&& after.time_offset() == beacon_offset(master_time, now_ms)
            &&& after.last_beacon() == Some(now_ms)
            &&& after.latencies() == Seq::<(Seq<char>, u32)>::empty()
        },
        _ => after == before,
    }
}

/// What a node is told at start-up.
pub struct SaberConfig {
    /// Identifier of the node, unique in the network.
    pub node_id: String,
    /// The part the node plays.
    pub role: NodeRole,
    /// Address of the radio, if known.
    pub bt_address: Option<String>,
    /// Whether the node plays music (48 kHz) or voice (16 kHz).
    pub is_music_mode: bool,
}

impl Default for SaberConfig {
    /// A receiver of music with a generated id.
    fn default() -> (config: Self)
        ensures
            is_generated_id("node-"@, config.node_id@),
            config.role == NodeRole::Sink,
            config.bt_address is None,
            config.is_music_mode,
    {
        SaberConfig {
            node_id: generated_id("node-"),
            role: NodeRole::Sink,
            bt_address: None,
            is_music_mode: true,
        }
    }
}

/// What a node says of itself.
#[derive(Debug)]
pub struct NodeInfo {
    /// Identifier of the node.
    pub node_id: String,
    /// The part the node plays.
    pub role: NodeRole,
    /// Whether the node has taken in a beacon.
    pub is_synchronized: bool,
    /// Mean latency on record, in milliseconds.
    pub latency: u32,
}

/// The state of the protocol on one node.
pub struct SaberProtocol {
    config: SaberConfig,
    mesh_network: Option<MeshNetwork>,
    sync_manager: SyncManager,
    audio_sync: Option<AudioSync>,
}

impl SaberProtocol {
    /// What the node was told at start-up.
    pub closed spec fn configuration(&self) -> SaberConfig {
        self.config
    }

    /// The mesh network, once the protocol has been initialized.
    pub closed spec fn mesh(&self) -> Option<MeshNetwork> {
        self.mesh_network
    }

    /// The sync manager.
    pub closed spec fn sync(&self) -> SyncManager {
        self.sync_manager
    }

    /// The audio synchronizer, once the protocol has been initialized.
    pub closed spec fn audio(&self) -> Option<AudioSync> {
        self.audio_sync
    }

    /// A protocol that has not been initialized and has seen no beacon.
    pub fn new(config: SaberConfig) -> (protocol: Self)
        ensures
            protocol.configuration() == config,
            protocol.mesh() is None,
            protocol.audio() is None,
            protocol.sync().is_fresh(),
    {
        SaberProtocol {
            config,
            mesh_network: None,
            sync_manager: SyncManager::new(),
            audio_sync: None,
        }
    }

    /// Sets up the mesh network around the local node and the audio
    /// synchronizer for the configured mode. What was set up before is
    /// replaced; the sync manager stays as it is.
    pub fn initialize(&mut self) -> (done: Result<(), String>)
        ensures
            done is Ok,
            final(self).configuration() == old(self).configuration(),
            final(self).sync() == old(self).sync(),
            final(self).mesh() matches Some(mesh) && {
                &&& mesh.local().id@ == old(self).configuration().node_id@
                &&& mesh.local().role == old(self).configuration().role
                &&& mesh.local().last_ping is None
                &&& mesh.local().latency == 0
                &&& mesh.local().buffer_state == 100
                &&& mesh.nodes() == Seq::<(Seq<char>, Node)>::empty()
            },
            final(self).audio() matches Some(audio) && audio.is_fresh(
                old(self).configuration().is_music_mode,
            ),
    {
        let local_node = Node::new(self.config.node_id.as_str(), self.config.role);
        self.mesh_network = Some(MeshNetwork::new(local_node));
        self.audio_sync = Some(AudioSync::new(self.config.is_music_mode));
        Ok(())
    }

    /// What the node was told at start-up.
    pub fn config(&self) -> (config: &SaberConfig)
        ensures
            *config == self.configuration(),
    {
        &self.config
    }

    /// The mesh network, once the protocol has been initialized.
    pub fn get_mesh_network(&self) -> (mesh: Option<&MeshNetwork>)
        ensures
            match mesh {
                Some(mesh) => self.mesh() == Some(*mesh),
                None => self.mesh() is None,
            },
    {
        self.mesh_network.as_ref()
    }

    /// The audio synchronizer, once the protocol has been initialized.
    pub fn get_audio_sync(&self) -> (audio: Option<&AudioSync>)
        ensures
            match audio {
                Some(audio) => self.audio() == Some(*audio),
                None => self.audio() is None,
            },
    {
        self.audio_sync.as_ref()
    }

    /// The sync manager.
    pub fn get_sync_manager(&self) -> (manager: &SyncManager)
        ensures
            *manager == self.sync(),
    {
        &self.sync_manager
    }

    /// Starts playback. Fails, and changes nothing, before initialization
    /// and before the first beacon.
    pub fn start_audio_playback(&mut self) -> (started: Result<(), String>)
        ensures
            final(self).configuration() == old(self).configuration(),
            final(self).sync() == old(self).sync(),
            final(self).mesh() == old(self).mesh(),
            started is Ok <==> old(self).audio() is Some && old(self).sync().synchronized(),
            started is Ok ==> (final(self).audio() matches Some(audio) && {
                &&& audio.playing()
                &&& audio.jitter_buffer() == optimal_buffer(old(self).sync().latencies())
                &&& audio.sample_rate() == old(self).audio()->0.sample_rate()
                &&& audio.bitrate() == old(self).audio()->0.bitrate()
            }),
            started matches Err(reason) ==> final(self).audio() == old(self).audio() && reason@
                == if old(self).audio() is None {
                no_audio_reason()
            } else {
                not_synchronized_reason()
            },
    {
        match &mut self.audio_sync {
            Some(audio) => audio.start_playback(&self.sync_manager),
            None => Err("Sincronizzatore audio non inizializzato".to_string()),
        }
    }

    /// Stops playback. Fails only before initialization.
    pub fn stop_audio_playback(&mut self) -> (stopped: Result<(), String>)
        ensures
            final(self).configuration() == old(self).configuration(),
            final(self).sync() == old(self).sync(),
            final(self).mesh() == old(self).mesh(),
            stopped is Ok <==> old(self).audio() is Some,
            stopped is Ok ==> (final(self).audio() matches Some(audio) && {
                &&& !audio.playing()
                &&& audio.jitter_buffer() == old(self).audio()->0.jitter_buffer()
                &&& audio.sample_rate() == old(self).audio()->0.sample_rate()
                &&& audio.bitrate() == old(self).audio()->0.bitrate()
            }),
            stopped matches Err(reason) ==> final(self).audio() is None && reason@
                == no_audio_reason(),
    {
        match &mut self.audio_sync {
            Some(audio) => {
                audio.stop_playback();
                Ok(())
            },
            None => Err("Sincronizzatore audio non inizializzato".to_string()),
        }
    }

    /// Takes in the broadcaster's time `master_time`, arrived at local time
    /// `local_time`.
    pub fn update_time_sync_at(&mut self, master_time: u64, local_time: u64) -> (done: Result<
        (),
        String,
    >)
        ensures
            done is Ok,
            final(self).configuration() == old(self).configuration(),
            final(self).mesh() == old(self).mesh(),
            final(self).audio() == old(self).audio(),
            final(self).sync().synchronized(),
            final(self).sync().time_offset() == beacon_offset(master_time, local_time),
            final(self).sync().last_beacon() == Some(local_time),
            final(self).sync().latencies() == old(self).sync().latencies(),
    {
        self.sync_manager.handle_time_beacon_at(master_time, local_time)
    }

    /// Takes in the broadcaster's time `master_time`, arrived now, by the
    /// wall clock.
    pub fn update_time_sync(&mut self, master_time: u64) -> (done: Result<(), String>)
        ensures
            done is Ok,
            final(self).configuration() == old(self).configuration(),
            final(self).mesh() == old(self).mesh(),
            final(self).audio() == old(self).audio(),
            final(self).sync().synchronized(),
            final(self).sync().latencies() == old(self).sync().latencies(),
            exists|local_time: u64|
                final(self).sync().time_offset() == beacon_offset(master_time, local_time)
                    && final(self).sync().last_beacon() == Some(local_time),
    {
        let local_time = wall_clock_ms();
        self.update_time_sync_at(master_time, local_time)
    }

    /// Mean latency on record, 0 before initialization and while there is
    /// none.
    pub fn get_current_latency(&self) -> (latency: u32)
        ensures
            latency == match (self.audio(), mean_latency(self.sync().latencies())) {
                (Some(_), Some(mean)) => mean,
                _ => 0,
            },
    {
        match &self.audio_sync {
            Some(audio) => audio.get_current_latency(&self.sync_manager),
            None => 0,
        }
    }

    /// Files a node that has not been heard of yet under `node_id`. Fails
    /// only before initialization.
    pub fn register_node(
        &mut self,
        node_id: String,
        role: NodeRole,
        address: Option<String>,
    ) -> (done: Result<(), String>)
        ensures
            final(self).configuration() == old(self).configuration(),
            final(self).sync() == old(self).sync(),
            final(self).audio() == old(self).audio(),
            done is Ok <==> old(self).mesh() is Some,
            done is Ok ==> (final(self).mesh() matches Some(after) && {
                &&& after.local() == old(self).mesh()->0.local()
                &&& exists|node: Node|
                    {
                        &&& node.id@ == node_id@
                        &&& node.role == role
                        &&& node.last_ping is None
                        &&& node.latency == 0
                        &&& node.buffer_state == 100
                        &&& #[trigger] upsert(old(self).mesh()->0.nodes(), node_id@, node)
                            == after.nodes()
                    }
            }),
            done matches Err(reason) ==> final(self).mesh() is None && reason@ == no_mesh_reason(),
    {
        match &mut self.mesh_network {
            Some(mesh) => {
                mesh.register_node(Node::new(node_id.as_str(), role));
                Ok(())
            },
            None => Err("Rete mesh non inizializzata".to_string()),
        }
    }

    /// The ids of the nodes that are active at `now_ms`, in table order.
    /// Fails only before initialization.
    pub fn get_active_nodes_at(&self, now_ms: u64) -> (ids: Result<Vec<String>, String>)
        ensures
            ids is Ok <==> self.mesh() is Some,
            ids matches Ok(ids) ==> ids@.map_values(|id: String| id@) == active_ids(
                self.mesh()->0.nodes(),
                now_ms,
            ),
            ids matches Err(reason) ==> reason@ == no_mesh_reason(),
    {
        match &self.mesh_network {
            Some(mesh) => {
                let nodes = mesh.get_active_nodes_at(now_ms);
                let mut ids: Vec<String> = Vec::new();
                let mut i: usize = 0;
                while i < nodes.len()
                    invariant
                        i <= nodes@.len(),
                        ids@.len() == i,
                        forall|j: int| 0 <= j < i ==> (#[trigger] ids@[j])@ == nodes@[j].id@,
                    decreases nodes.len() - i,
                {
                    ids.push(nodes[i].id.clone());
                    i += 1;
                }
                Ok(ids)
            },
            None => Err("Rete mesh non inizializzata".to_string()),
        }
    }

    /// The ids of the nodes that are active now, by the wall clock, in table
    /// order. Fails only before initialization.
    pub fn get_active_nodes(&self) -> (ids: Result<Vec<String>, String>)
        ensures
            ids is Ok <==> self.mesh() is Some,
            ids matches Ok(ids) ==> exists|now_ms: u64|
                ids@.map_values(|id: String| id@) == #[trigger] active_ids(
                    self.mesh()->0.nodes(),
                    now_ms,
                ),
            ids matches Err(reason) ==> reason@ == no_mesh_reason(),
    {
        let now_ms = wall_clock_ms();
        self.get_active_nodes_at(now_ms)
    }

    /// Takes in `packet`, arrived at `now_ms`: the node table sees it first,
    /// then a time beacon or an emergency resynchronization is handed to the
    /// sync manager. Says what is left to do with the packet. Fails, and
    /// changes nothing, before initialization.
    pub fn process_packet(&mut self, packet: MeshPacket, now_ms: u64) -> (forward: Result<
        Forward,
        String,
    >)
        ensures
            final(self).configuration() == old(self).configuration(),
            final(self).audio() == old(self).audio(),
            forward is Ok <==> old(self).mesh() is Some,
            forward matches Ok(left) ==> {
                &&& left == forward_of(packet, now_ms)
                &&& final(self).mesh() is Some
                &&& final(self).mesh()->0.local() == old(self).mesh()->0.local()
                &&& final(self).mesh()->0.nodes() == table_after(
                    old(self).mesh()->0.nodes(),
                    packet,
                    now_ms,
                )
                &&& sync_after(old(self).sync(), final(self).sync(), packet, now_ms)
            },
            forward matches Err(reason) ==> {
                &&& reason@ == no_mesh_reason()
                &&& final(self).mesh() is None
                &&& final(self).sync() == old(self).sync()
            },
    {
        let forward = match &mut self.mesh_network {
            Some(mesh) => mesh.dispatch(packet, now_ms),
            None => {
                return Err("Rete mesh non inizializzata".to_string());
            },
        };
        match &forward {
            Forward::Beacon { master_time } => {
                let _ = self.sync_manager.handle_time_beacon_at(*master_time, now_ms);
            },
            Forward::Resync { master_time, target_nodes } => {
                let _ = self.sync_manager.emergency_sync_at(*master_time, now_ms);
            },
            _ => {},
        }
        Ok(forward)
    }

    /// What the node says of itself: its id and role, whether it is
    /// synchronized, and the mean latency on record.
    pub fn get_node_info(&self) -> (info: NodeInfo)
        ensures
            info.node_id == self.configuration().node_id,
            info.role == self.configuration().role,
            info.is_synchronized == self.sync().synchronized(),
            info.latency == match (self.audio(), mean_latency(self.sync().latencies())) {
                (Some(_), Some(mean)) => mean,
                _ => 0,
            },
    {
        NodeInfo {
            node_id: self.config.node_id.clone(),
            role: self.config.role,
            is_synchronized: self.is_synchronized(),
            latency: self.get_current_latency(),
        }
    }

    /// Whether a beacon has been taken in.
    pub fn is_synchronized(&self) -> (synced: bool)
        ensures
            synced == self.sync().synchronized(),
    {
        self.sync_manager.is_synchronized()
    }
}

/// What a freshly started node looks like: configured as asked, with the id
/// it was given or, where it was given none, one generated behind `prefix`;
/// initialized around its local node, with no other node on file, not
/// playing and not synchronized.
pub open spec fn started_as(
    protocol: SaberProtocol,
    prefix: Seq<char>,
    role: NodeRole,
    node_id: Option<String>,
    bt_address: Option<String>,
    is_music: bool,
) -> bool {
    let config = protocol.configuration();
    &&& config.role == role
    &&& config.bt_address == bt_address
    &&& config.is_music_mode == is_music
    &&& match node_id {
        Some(id) => config.node_id == id,
        None => is_generated_id(prefix, config.node_id@),
    }
    &&& protocol.sync().is_fresh()
    &&& protocol.mesh() matches Some(mesh) && {
        &&& mesh.local().id@ == config.node_id@
        &&& mesh.local().role == role
        &&& mesh.local().last_ping is None
        &&& mesh.local().latency == 0
        &&& mesh.local().buffer_state == 100
        &&& mesh.nodes() == Seq::<(Seq<char>, Node)>::empty()
    }
    &&& protocol.audio() matches Some(audio) && audio.is_fresh(is_music)
}

fn start_node(
    prefix: &str,
    role: NodeRole,
    node_id: Option<String>,
    bt_address: Option<String>,
    is_music: bool,
) -> (started: Result<SaberProtocol, String>)
    ensures
        started matches Ok(protocol) && started_as(
            protocol,
            prefix@,
            role,
            node_id,
            bt_address,
            is_music,
        ),
{
    let node_id = match node_id {
        Some(id) => id,
        None => generated_id(prefix),
    };
    let mut protocol = SaberProtocol::new(
        SaberConfig { node_id, role, bt_address, is_music_mode: is_music },
    );
    match protocol.initialize() {
        Ok(()) => Ok(protocol),
        Err(reason) => Err(reason),
    }
}

/// Starts a broadcaster of music. Without an id it is given one that begins
/// with `master-`.
pub fn start_master(node_id: Option<String>, bt_address: Option<String>) -> (started: Result<
    SaberProtocol,
    String,
>)
    ensures
        started matches Ok(protocol) && started_as(
            protocol,
            "master-"@,
            NodeRole::Master,
            node_id,
            bt_address,
            true,
        ),
{
    start_node("master-", NodeRole::Master, node_id, bt_address, true)
}

/// Starts a relay of music. Without an id it is given one that begins with
/// `repeater-`.
pub fn start_repeater(node_id: Option<String>, bt_address: Option<String>) -> (started: Result<
    SaberProtocol,
    String,
>)
    ensures
        started matches Ok(protocol) && started_as(
            protocol,
            "repeater-"@,
            NodeRole::Repeater,
            node_id,
            bt_address,
            true,
        ),
{
    start_node("repeater-", NodeRole::Repeater, node_id, bt_address, true)
}

/// Starts a receiver of music or of voice. Without an id it is given one
/// that begins with `sink-`.
pub fn start_sink(node_id: Option<String>, bt_address: Option<String>, is_music: bool) -> (started:
    Result<SaberProtocol, String>)
    ensures
        started matches Ok(protocol) && started_as(
            protocol,
            "sink-"@,
            NodeRole::Sink,
            node_id,
            bt_address,
            is_music,
        ),
{
    start_node("sink-", NodeRole::Sink, node_id, bt_address, is_music)
}

} // verus!
