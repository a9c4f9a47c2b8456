//! Metrics Data Packet (Data Type 2).
//!
//! Contains real-time playback metrics for a layer including position, BPM,
//! beat information, and speed data.
use vstd::prelude::*;
use crate::bytes::{u16_at, u32_at};
use crate::error::TcNetError;
use crate::header::ManagementHeader;
use crate::listener::format_duration_ms;
use crate::packets::packet_error;
use crate::text::{decimal_padded, push_decimal, string_from_chars};
use crate::types::{Layer, LayerState};
use crate::wire::RawMetricsDataPacket;

verus! {

/// Data type identifier for Metrics Data packets.
pub const METRICS_DATA_TYPE: u8 = 2;

/// Minimum packet size for Metrics Data.
pub const METRICS_DATA_PACKET_SIZE: usize = 122;

/// The layer that a 1-based layer ID names; IDs that name none give layer 1.
pub open spec fn layer_of_id(layer_id: u8) -> Layer {
    Layer::at_or_first(if layer_id > 0 {
        layer_id - 1
    } else {
        0
    })
}

/// The layer that a 1-based layer ID names; IDs that name none give layer 1.
pub fn layer_from_id(layer_id: u8) -> (r: Layer)
    ensures
        r == layer_of_id(layer_id),
{
    Layer::from_index_or_first(layer_id.saturating_sub(1) as usize)
}

/// `ms` as minutes and seconds, `MM:SS`, each at least two digits.
pub open spec fn minutes_seconds_text(ms: u32) -> Seq<char> {
    let total = ms / 1000;
    decimal_padded((total / 60) as nat, 2) + ":"@ + decimal_padded((total % 60) as nat, 2)
}

/// `ms` as minutes, seconds and milliseconds, `MM:SS.mmm`.
pub open spec fn minutes_seconds_millis_text(ms: u32) -> Seq<char> {
    minutes_seconds_text(ms) + "."@ + decimal_padded((ms % 1000) as nat, 3)
}

/// Appends `ms` as `MM:SS`.
pub fn push_minutes_seconds(out: &mut Vec<char>, ms: u32)
    ensures
        final(out)@ == old(out)@ + minutes_seconds_text(ms),
{
    let ghost start = out@;
    let total_secs = ms / 1000;
    push_decimal(out, total_secs / 60, 2);
    out.push(':');
    push_decimal(out, total_secs % 60, 2);
    proof {
        reveal_strlit(":");
    }
    assert(out@ =~= start + minutes_seconds_text(ms));
}

/// Metrics Data packet containing real-time playback information for a layer.
#[derive(Debug, Clone, Copy)]
pub struct MetricsDataPacket {
    /// Common management header
    pub header: ManagementHeader,
    /// Layer this data is for
    pub layer: Layer,
    /// Current layer state (playing, paused, etc.)
    pub layer_state: LayerState,
    /// Whether this layer is the sync master
    pub is_sync_master: bool,
    /// Current beat marker (1-4)
    pub beat_marker: u8,
    /// Total track length in milliseconds
    pub track_length_ms: u32,
    /// Current playback position in milliseconds
    pub current_position_ms: u32,
    /// Playback speed (0-65536, where 32768 = 100%)
    pub speed: u32,
    /// Current beat number in the track
    pub beat_number: u32,
    /// BPM value (stored as hundredths, e.g., 12000 = 120.00 BPM)
    pub bpm_raw: u32,
    /// Pitch bend value (0-65536, where 32768 = 100%)
    pub pitch_bend: u16,
    /// Track ID (database ID of loaded track)
    pub track_id: u32,
}

impl MetricsDataPacket {
    /// Whether this packet holds what the bytes `s` encode.
    pub open spec fn decodes(self, s: Seq<u8>) -> bool {
        &&& self.header.decodes(s)
        &&& self.layer == layer_of_id(s[25])
        &&& self.layer_state == LayerState::spec_from_u8(s[27])
        &&& self.is_sync_master == (s[29] != 0)
        &&& self.beat_marker == s[31]
        &&& self.track_length_ms == u32_at(s, 32)
        &&& self.current_position_ms == u32_at(s, 36)
        &&& self.speed == u32_at(s, 40)
        &&& self.beat_number == u32_at(s, 57)
        &&& self.bpm_raw == u32_at(s, 112)
        &&& self.pitch_bend == u16_at(s, 116)
        &&& self.track_id == u32_at(s, 118)
    }

    /// Parse a Metrics Data packet from raw bytes.
    pub fn parse(data: &[u8]) -> (r: Result<Self, TcNetError>)
        ensures
            r is Ok <==> packet_error(data@, 122) is None,
            r matches Ok(p) ==> p.decodes(data@),
            r matches Err(e) ==> packet_error(data@, 122) == Some(e),
    {
        if data.len() < METRICS_DATA_PACKET_SIZE {
            return Err(TcNetError::PacketTooShort {
                expected: METRICS_DATA_PACKET_SIZE,
                actual: data.len(),
            });
        }
        let raw = match RawMetricsDataPacket::read(data) {
            Ok(raw) => raw,
            Err(e) => return Err(e),
        };
        let header = match ManagementHeader::from_raw(raw.header) {
            Ok(h) => h,
            Err(e) => return Err(e),
        };
        Ok(Self {
            header,
            layer: layer_from_id(raw.layer_id),
            layer_state: LayerState::from_u8(raw.layer_state),
            is_sync_master: raw.sync_master != 0,
            beat_marker: raw.beat_marker,
            track_length_ms: raw.track_length_ms,
            current_position_ms: raw.current_position_ms,
            speed: raw.speed,
            beat_number: raw.beat_number,
            bpm_raw: raw.bpm,
            pitch_bend: raw.pitch_bend,
            track_id: raw.track_id,
        })
    }

    /// Get the current position as a formatted time string (MM:SS.mmm).
    pub fn position_string(&self) -> (r: String)
        ensures
            r@ == minutes_seconds_millis_text(self.current_position_ms),
    {
        format_duration_ms(self.current_position_ms)
    }

    /// Get the track length as a formatted time string (MM:SS).
    pub fn track_length_string(&self) -> (r: String)
        ensures
            r@ == minutes_seconds_text(self.track_length_ms),
    {
        let mut out: Vec<char> = Vec::new();
        push_minutes_seconds(&mut out, self.track_length_ms);
        assert(out@ =~= minutes_seconds_text(self.track_length_ms));
        string_from_chars(&out)
    }

    /// Get the remaining time in milliseconds.
    pub fn remaining_ms(&self) -> (r: u32)
        ensures
            r == (if self.current_position_ms <= self.track_length_ms {
                self.track_length_ms - self.current_position_ms
            } else {
                0
            }),
    {
        self.track_length_ms.saturating_sub(self.current_position_ms)
    }
}

/// A metrics packet decoded from bytes holds, field by field, what the wire
/// record of those bytes reads under the same name; the layer is the one that
/// the record's 1-based layer ID names and the state the one that its state
/// byte stands for.
pub proof fn lemma_metrics_fields_by_name(p: MetricsDataPacket, raw: RawMetricsDataPacket, s: Seq<u8>)
    requires
        s.len() >= 122,
        raw.reads_from(s),
        p.decodes(s),
    ensures
        p.layer == layer_of_id(raw.layer_id),
        p.layer_state == LayerState::spec_from_u8(raw.layer_state),
        p.is_sync_master == (raw.sync_master != 0),
        p.beat_marker == raw.beat_marker,
        p.track_length_ms == raw.track_length_ms,
        p.current_position_ms == raw.current_position_ms,
        p.speed == raw.speed,
        p.beat_number == raw.beat_number,
        p.bpm_raw == raw.bpm,
        p.pitch_bend == raw.pitch_bend,
        p.track_id == raw.track_id,
{
    crate::header::lemma_header_fields_by_name(p.header, raw.header, s);
}

/// A 1-based layer ID names the layer whose wire number it is.
pub proof fn lemma_layer_id_names_layer(l: Layer)
    ensures
        layer_of_id(l.code()) == l,
        l.code() == l.spec_index() + 1,
{
}

} // verus!
