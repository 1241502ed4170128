//! Control core of the SABER audio mesh: clock alignment, node membership
//! and the secure channel between nodes.
//!
//! The core holds state and decides; it owns no thread, queue or socket.
//! Whoever runs it feeds it packets and the time, and carries out what it
//! hands back.

mod clock;
pub mod crypto;
pub mod mesh;
pub mod primitives;
pub mod protocol;
pub mod registry;
pub mod sync;
pub mod text;
pub mod wire;

pub use crate::crypto::{CryptoError, CryptoResult, MeshCrypto, PublicKey, Signature};
pub use crate::mesh::{
    Forward, MeshNetwork, MeshPacket, Node, NodeRole, ROLE_MASTER, ROLE_REPEATER, ROLE_SINK,
};
pub use crate::protocol::{
    start_master, start_repeater, start_sink, NodeInfo, SaberConfig, SaberProtocol,
};
pub use crate::sync::{AudioSync, SyncManager};
