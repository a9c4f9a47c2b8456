//! Request Packet (Type 20) for requesting data from other nodes.
//!
//! Request packets are sent to master or repeater nodes to request specific data
//! such as waveforms, metadata, or mixer state.
use vstd::prelude::*;
use vstd::string::StringSliceAdditionalSpecFns;
use crate::header::{name_field, ManagementHeader};
use crate::types::{
    MessageType, NodeOptions, NodeType, PROTOCOL_VERSION_MAJOR, PROTOCOL_VERSION_MINOR,
};
use crate::packets::error::data_type_name;
use crate::packets::metadata::METADATA_DATA_TYPE;
use crate::packets::metrics::METRICS_DATA_TYPE;
use crate::packets::mixer::MIXER_DATA_TYPE;

verus! {

/// Request packet size (26 bytes).
pub const REQUEST_PACKET_SIZE: usize = 26;

/// Data types that can be requested.
#[derive(Debug, Clone, Copy, PartialEq, Eq, Structural)]
pub enum RequestDataType {
    /// Layer status data (type 2)
    LayerStatus,
    /// Metadata (type 4)
    Metadata,
    /// Beat grid info (type 8)
    BeatGrid,
    /// Cue data (type 12)
    CueData,
    /// Small waveform (type 16)
    SmallWaveform,
    /// Big waveform (type 32)
    BigWaveform,
    /// Mixer data (type 150)
    MixerData,
}

impl RequestDataType {
    /// The wire value of a requested data type.
    pub open spec fn code(self) -> u8 {
        match self {
            RequestDataType::LayerStatus => 2,
            RequestDataType::Metadata => 4,
            RequestDataType::BeatGrid => 8,
            RequestDataType::CueData => 12,
            RequestDataType::SmallWaveform => 16,
            RequestDataType::BigWaveform => 32,
            RequestDataType::MixerData => 150,
        }
    }

    pub fn as_u8(self) -> (r: u8)
        ensures
            r == self.code(),
    {
        match self {
            Self::LayerStatus => 2,
            Self::Metadata => 4,
            Self::BeatGrid => 8,
            Self::CueData => 12,
            Self::SmallWaveform => 16,
            Self::BigWaveform => 32,
            Self::MixerData => 150,
        }
    }
}

/// Request packet for requesting data from other nodes.
#[derive(Debug, Clone, Copy)]
pub struct RequestPacket {
    /// Common management header
    pub header: ManagementHeader,
    /// Data type to request
    pub data_type: RequestDataType,
    /// Layer to request data for (0 for mixer data)
    pub layer: u8,
}

impl RequestPacket {
    /// The 26 bytes that encode this packet.
    pub open spec fn spec_bytes(self) -> Seq<u8> {
        self.header.spec_bytes() + seq![self.data_type.code(), self.layer]
    }

    /// Create a new request packet.
    pub fn new(
        node_id: u16,
        node_name: &str,
        sequence: u8,
        node_type: NodeType,
        node_options: NodeOptions,
        timestamp_us: u32,
        data_type: RequestDataType,
        layer: u8,
    ) -> (r: Self)
        ensures
            r.header.node_id == node_id,
            r.header.version_major == PROTOCOL_VERSION_MAJOR,
            r.header.version_minor == PROTOCOL_VERSION_MINOR,
            r.header.message_type == MessageType::Request,
            r.header.node_name@ == name_field(node_name.spec_bytes()),
            r.header.sequence == sequence,
            r.header.node_type == node_type,
            r.header.node_options == node_options,
            r.header.timestamp_us == timestamp_us,
            r.data_type == data_type,
            r.layer == layer,
    {
        let header = ManagementHeader::new(
            node_id,
            MessageType::Request,
            node_name,
            sequence,
            node_type,
            node_options,
            timestamp_us,
        );
        Self { header, data_type, layer }
    }

    /// Create a request for mixer data.
    pub fn mixer_data(
        node_id: u16,
        node_name: &str,
        sequence: u8,
        node_type: NodeType,
        node_options: NodeOptions,
        timestamp_us: u32,
    ) -> (r: Self)
        ensures
            r.header.node_id == node_id,
            r.header.version_major == PROTOCOL_VERSION_MAJOR,
            r.header.version_minor == PROTOCOL_VERSION_MINOR,
            r.header.message_type == MessageType::Request,
            r.header.node_name@ == name_field(node_name.spec_bytes()),
            r.header.sequence == sequence,
            r.header.node_type == node_type,
            r.header.node_options == node_options,
            r.header.timestamp_us == timestamp_us,
            r.data_type == RequestDataType::MixerData,
            r.layer == 0,
    {
        Self::new(
            node_id,
            node_name,
            sequence,
            node_type,
            node_options,
            timestamp_us,
            RequestDataType::MixerData,
            0,
        )
    }

    /// Serialize the packet to bytes.
    pub fn to_bytes(&self) -> (r: [u8; REQUEST_PACKET_SIZE])
        ensures
            r@ == self.spec_bytes(),
    {
        let h = self.header.to_bytes();
        let r = [
            h[0], h[1], h[2], h[3], h[4], h[5], h[6], h[7], h[8], h[9], h[10], h[11],
            h[12], h[13], h[14], h[15], h[16], h[17], h[18], h[19], h[20], h[21], h[22], h[23],
            self.data_type.as_u8(),
            self.layer,
        ];
        assert(r@ =~= self.spec_bytes());
        r
    }
}

/// Requested data types travel as their TCNet values (layer status 2,
/// metadata 4, beat grid 8, cue data 12, small waveform 16, big waveform 32,
/// mixer data 150): layer status, metadata and mixer data are the data types
/// that the packet parser reads as metrics, metadata and mixer data packets,
/// and an error notification names each requested type.
pub proof fn lemma_request_data_type_values(d: RequestDataType)
    ensures
        RequestDataType::LayerStatus.code() == METRICS_DATA_TYPE,
        RequestDataType::Metadata.code() == METADATA_DATA_TYPE,
        RequestDataType::MixerData.code() == MIXER_DATA_TYPE,
        data_type_name(RequestDataType::LayerStatus.code()) == "Metrics"@,
        data_type_name(RequestDataType::Metadata.code()) == "Metadata"@,
        data_type_name(RequestDataType::BeatGrid.code()) == "BeatGrid"@,
        data_type_name(RequestDataType::CueData.code()) == "CueData"@,
        data_type_name(RequestDataType::SmallWaveform.code()) == "SmallWaveform"@,
        data_type_name(RequestDataType::BigWaveform.code()) == "BigWaveform"@,
        data_type_name(RequestDataType::MixerData.code()) == "MixerData"@,
{
}

} // verus!
