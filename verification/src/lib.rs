//! TCNet protocol: packet formats, node bookkeeping and the decisions of a
//! participating node, with their contracts.
pub mod auth;
pub mod bytes;
pub mod error;
pub mod header;
pub mod keyed;
pub mod listener;
pub mod node;
pub mod packets;
pub mod registry;
pub mod text;
pub mod types;
pub mod wire;

pub use error::{Result, TcNetError};
pub use header::ManagementHeader;
pub use node::{NodeAction, NodeConfig, NodeCore, NodeEvent, Subscriptions};
pub use packets::{
    LayerStatus, LayerTimeData, MetadataPacket, MetricsDataPacket, MixerChannel, MixerDataPacket,
    MixerType, OptInPacket, Packet, StatusPacket, TimePacket, TrackKey,
};
pub use registry::{NodeInfo, NodeRegistry, RegistryEvent, RemovalReason};
pub use types::{
    Layer, LayerState, MessageType, NodeOptions, NodeType, SmpteMode, Timecode, TimecodeState,
};
