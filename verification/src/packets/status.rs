//! Status Packet (Type 5) parsing.
//!
//! Status packets contain layer configuration and state information.
use vstd::prelude::*;
use crate::bytes::{u16_at, u32_at};
use crate::error::TcNetError;
use crate::header::ManagementHeader;
use crate::packets::packet_error;
use crate::text::field_text;
use crate::types::{Layer, LayerState, SmpteMode};
use crate::wire::RawStatusPacket;

verus! {

/// Layer status information from a Status packet.
#[derive(Debug, Clone, Default)]
pub struct LayerStatus {
    /// Layer identifier
    pub layer: Layer,
    /// Source layer number
    pub source: u8,
    /// Layer playback state
    pub status: LayerState,
    /// Track ID loaded on this layer
    pub track_id: u32,
    /// Layer name (16 chars max)
    pub name: String,
}

impl LayerStatus {
    /// Whether this holds the status of layer `i` that the bytes `s` of a
    /// status packet encode.
    pub open spec fn decodes_at(self, s: Seq<u8>, i: int) -> bool {
        &&& self.layer == Layer::at_or_first(i)
        &&& self.source == s[34 + i]
        &&& self.status == LayerState::spec_from_u8(s[42 + i])
        &&& self.track_id == u32_at(s, 50 + 4 * i)
        &&& self.name@ == field_text(s.subrange(172 + 16 * i, 188 + 16 * i))
    }
}

/// Status packet containing layer configuration.
#[derive(Debug, Clone)]
pub struct StatusPacket {
    /// Common management header
    pub header: ManagementHeader,
    /// Number of nodes registered
    pub node_count: u16,
    /// Listener port for unicast
    pub listener_port: u16,
    /// SMPTE mode
    pub smpte_mode: SmpteMode,
    /// Auto master mode (0=Disabled, 1=HTP Master, 2=Link Master)
    pub auto_master_mode: u8,
    /// Layer status for all 8 layers
    pub layers: [LayerStatus; 8],
}

/// The display name of an auto master mode.
pub open spec fn auto_master_mode_name(mode: u8) -> Seq<char> {
    if mode == 0 {
        "Disabled"@
    } else if mode == 1 {
        "HTP Master"@
    } else if mode == 2 {
        "Link Master"@
    } else {
        "Unknown"@
    }
}

/// The layers of `ls` that are not idle, in order.
pub open spec fn non_idle_layers(ls: Seq<LayerStatus>) -> Seq<LayerStatus> {
    ls.filter(|l: LayerStatus| l.status != LayerState::Idle)
}

impl StatusPacket {
    /// Minimum size for a status packet.
    pub const MIN_SIZE: usize = 300;

    /// Whether this packet holds what the bytes `s` encode.
    pub open spec fn decodes(self, s: Seq<u8>) -> bool {
        &&& self.header.decodes(s)
        &&& self.node_count == u16_at(s, 24)
        &&& self.listener_port == u16_at(s, 26)
        &&& self.smpte_mode == SmpteMode::spec_from_u8(s[83])
        &&& self.auto_master_mode == s[84]
        &&& forall|i: int| 0 <= i < 8 ==> #[trigger] self.layers[i].decodes_at(s, i)
    }

    /// Parse a status packet from bytes.
    pub fn parse(data: &[u8]) -> (r: Result<Self, TcNetError>)
        ensures
            r is Ok <==> packet_error(data@, 300) is None,
            r matches Ok(p) ==> p.decodes(data@),
            r matches Err(e) ==> packet_error(data@, 300) == Some(e),
    {
        if data.len() < Self::MIN_SIZE {
            return Err(TcNetError::PacketTooShort { expected: Self::MIN_SIZE, actual: data.len() });
        }
        let raw = match RawStatusPacket::read(data) {
            Ok(raw) => raw,
            Err(e) => return Err(e),
        };
        let header = match ManagementHeader::from_raw(raw.header) {
            Ok(h) => h,
            Err(e) => return Err(e),
        };
        let layers = [
            Self::layer_from_raw(data, &raw, 0),
            Self::layer_from_raw(data, &raw, 1),
            Self::layer_from_raw(data, &raw, 2),
            Self::layer_from_raw(data, &raw, 3),
            Self::layer_from_raw(data, &raw, 4),
            Self::layer_from_raw(data, &raw, 5),
            Self::layer_from_raw(data, &raw, 6),
            Self::layer_from_raw(data, &raw, 7),
        ];
        Ok(Self {
            header,
            node_count: raw.node_count,
            listener_port: raw.listener_port,
            smpte_mode: SmpteMode::from_u8(raw.smpte_mode),
            auto_master_mode: raw.auto_master_mode,
            layers,
        })
    }

    /// The status of layer `i`, from the raw record of `data`.
    fn layer_from_raw(data: &[u8], raw: &RawStatusPacket, i: usize) -> (r: LayerStatus)
        requires
            i < 8,
            data@.len() >= 300,
            raw.reads_from(data@),
        ensures
            r.decodes_at(data@, i as int),
    {
        assert(raw.layer_sources@[i as int] == data@[34 + i]);
        assert(raw.layer_statuses@[i as int] == data@[42 + i]);
        assert(raw.layer_track_ids[i as int] == u32_at(data@, 50 + 4 * i));
        assert(raw.layer_names[i as int].reads_at(data@, 172 + 16 * i));
        LayerStatus {
            layer: Layer::from_index_or_first(i),
            source: raw.layer_sources[i],
            status: LayerState::from_u8(raw.layer_statuses[i]),
            track_id: raw.layer_track_ids[i],
            name: raw.layer_names[i].to_string_lossy(),
        }
    }

    /// Get auto master mode as a descriptive string.
    pub fn auto_master_mode_str(&self) -> (r: &'static str)
        ensures
            r@ == auto_master_mode_name(self.auto_master_mode),
    {
        match self.auto_master_mode {
            0 => "Disabled",
            1 => "HTP Master",
            2 => "Link Master",
            _ => "Unknown",
        }
    }

    /// Get active layers (non-idle).
    pub fn active_layers(&self) -> (r: Vec<&LayerStatus>)
        ensures
            r@.len() == non_idle_layers(self.layers@).len(),
            forall|k: int| 0 <= k < r@.len() ==> *r@[k] == non_idle_layers(self.layers@)[k],
    {
        let mut out: Vec<&LayerStatus> = Vec::new();
        let mut i: usize = 0;
        while i < 8
            invariant
                i <= 8,
                out@.len() == non_idle_layers(self.layers@.take(i as int)).len(),
                forall|k: int|
                    0 <= k < out@.len() ==> *out@[k] == non_idle_layers(self.layers@.take(i as int))[k],
            decreases 8 - i,
        {
            proof {
                reveal(Seq::filter);
                assert(self.layers@.take(i + 1).drop_last() =~= self.layers@.take(i as int));
            }
            if self.layers[i].status != LayerState::Idle {
                out.push(&self.layers[i]);
            }
            i = i + 1;
        }
        assert(self.layers@.take(8) =~= self.layers@);
        out
    }
}

/// A status packet decoded from bytes holds, field by field, what the wire
/// record of those bytes reads under the same name; layer `i`'s source,
/// state, track ID and name come from the record's entries at `i`.
pub proof fn lemma_status_fields_by_name(p: StatusPacket, raw: RawStatusPacket, s: Seq<u8>)
    requires
        s.len() >= 300,
        raw.reads_from(s),
        p.decodes(s),
    ensures
        p.node_count == raw.node_count,
        p.listener_port == raw.listener_port,
        p.smpte_mode == SmpteMode::spec_from_u8(raw.smpte_mode),
        p.auto_master_mode == raw.auto_master_mode,
        forall|i: int|
            0 <= i < 8 ==> {
                &&& #[trigger] p.layers[i].layer == Layer::at_or_first(i)
                &&& p.layers[i].source == raw.layer_sources[i]
                &&& p.layers[i].status == LayerState::spec_from_u8(raw.layer_statuses[i])
                &&& p.layers[i].track_id == raw.layer_track_ids[i]
                &&& p.layers[i].name@ == field_text(raw.layer_names[i].0@)
            },
{
    crate::header::lemma_header_fields_by_name(p.header, raw.header, s);
    assert forall|i: int| 0 <= i < 8 implies {
        &&& #[trigger] p.layers[i].layer == Layer::at_or_first(i)
        &&& p.layers[i].source == raw.layer_sources[i]
        &&& p.layers[i].status == LayerState::spec_from_u8(raw.layer_statuses[i])
        &&& p.layers[i].track_id == raw.layer_track_ids[i]
        &&& p.layers[i].name@ == field_text(raw.layer_names[i].0@)
    } by {
        assert(p.layers[i].decodes_at(s, i));
        assert(raw.layer_sources@[i] == s[34 + i]);
        assert(raw.layer_statuses@[i] == s[42 + i]);
        assert(raw.layer_names[i].reads_at(s, 172 + 16 * i));
    }
}

} // verus!
