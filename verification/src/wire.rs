//! Wire-format records: the fields of each TCNet packet exactly as they
//! stand in the bytes, before any interpretation.
//!
//! Every record has a `reads_from` predicate that says which bytes each field
//! holds, and a `read` function proved against it.
use vstd::prelude::*;
use crate::bytes::{read_u16_le, read_u32_le, u16_at, u32_at};
use crate::error::TcNetError;

verus! {

/// Whether `s` carries the `TCN` signature at bytes 4..7.
pub open spec fn has_signature(s: Seq<u8>) -> bool {
    s[4] == 84u8 && s[5] == 67u8 && s[6] == 78u8
}

/// The error that reading a record of `size` bytes from `s` gives, if any: too
/// few bytes, or a missing `TCN` signature.
pub open spec fn raw_error(s: Seq<u8>, size: nat) -> Option<TcNetError> {
    if s.len() < size {
        Some(TcNetError::PacketTooShort { expected: size as usize, actual: s.len() as usize })
    } else if !has_signature(s) {
        Some(TcNetError::InvalidHeader([s[4], s[5], s[6]]))
    } else {
        None
    }
}

/// Copies the `N` bytes that start at `off`.
pub fn read_fixed<const N: usize>(data: &[u8], off: usize) -> (r: [u8; N])
    requires
        off + N <= data@.len(),
    ensures
        forall|i: int| 0 <= i < N ==> #[trigger] r[i] == data@[off + i],
{
    let mut buf: [u8; N] = vstd::array::array_fill_for_copy_types::<u8, N>(0u8);
    let n = data.len();
    let mut i: usize = 0;
    while i < N
        invariant
            i <= N,
            n == data@.len(),
            off + N <= data@.len(),
            forall|j: int| 0 <= j < i ==> #[trigger] buf[j] == data@[off + j],
        decreases N - i,
    {
        buf[i] = data[off + i];
        i = i + 1;
    }
    buf
}

/// Fixed-size string field: `N` raw bytes.
#[derive(Debug, Clone, Copy)]
pub struct FixedStr<const N: usize>(pub [u8; N]);

impl<const N: usize> FixedStr<N> {
    /// The bytes of this field.
    pub open spec fn bytes(self) -> Seq<u8> {
        self.0@
    }

    /// Whether this field holds the `N` bytes at `off` in `s`.
    pub open spec fn reads_at(self, s: Seq<u8>, off: int) -> bool {
        self.0@ == s.subrange(off, off + N)
    }

    /// Reads the `N` bytes at `off`.
    pub fn read_at(data: &[u8], off: usize) -> (r: Self)
        requires
            off + N <= data@.len(),
        ensures
            r.reads_at(data@, off as int),
    {
        let a = read_fixed::<N>(data, off);
        assert(a@ =~= data@.subrange(off as int, off + N));
        FixedStr(a)
    }

    /// The field as text: decoded leniently as UTF-8, trailing NUL padding
    /// removed, then surrounding white space removed.
    pub fn to_string_lossy(&self) -> (r: String)
        ensures
            r@ == crate::text::field_text(self.0@),
    {
        crate::text::field_string(self.0.as_slice())
    }

    /// Get the raw bytes.
    pub fn as_bytes(&self) -> (r: &[u8; N])
        ensures
            r == &self.0,
    {
        &self.0
    }
}

impl<const N: usize> Default for FixedStr<N> {
    fn default() -> (r: Self)
        ensures
            forall|i: int| 0 <= i < N ==> #[trigger] r.0[i] == 0u8,
    {
        FixedStr(vstd::array::array_fill_for_copy_types::<u8, N>(0u8))
    }
}

/// Raw management header as it appears on the wire.
#[derive(Debug, Clone, Copy)]
pub struct RawManagementHeader {
    /// Node ID (bytes 0-1)
    pub node_id: u16,
    /// Protocol version major (byte 2)
    pub version_major: u8,
    /// Protocol version minor (byte 3)
    pub version_minor: u8,
    /// Header signature "TCN" (bytes 4-6)
    pub header_sig: [u8; 3],
    /// Message type (byte 7)
    pub message_type: u8,
    /// Node name (bytes 8-15)
    pub node_name: FixedStr<8>,
    /// Sequence number (byte 16)
    pub sequence: u8,
    /// Node type (byte 17)
    pub node_type: u8,
    /// Node options flags (bytes 18-19)
    pub node_options: u16,
    /// Timestamp in microseconds (bytes 20-23)
    pub timestamp_us: u32,
}

impl RawManagementHeader {
    /// Whether each field holds the bytes the wire format gives it.
    pub open spec fn reads_from(self, s: Seq<u8>) -> bool {
        (self.node_id == u16_at(s, 0))
        && (self.version_major == s[2])
        && (self.version_minor == s[3])
        && (self.header_sig@ == s.subrange(4, 7))
        && (self.message_type == s[7])
        && (self.node_name.reads_at(s, 8))
        && (self.sequence == s[16])
        && (self.node_type == s[17])
        && (self.node_options == u16_at(s, 18))
        && (self.timestamp_us == u32_at(s, 20))
    }

    /// Reads the record from the start of `data`.
    pub fn read(data: &[u8]) -> (r: Result<Self, TcNetError>)
        ensures
            r is Ok <==> raw_error(data@, 24) is None,
            r matches Ok(v) ==> v.reads_from(data@),
            r matches Err(e) ==> raw_error(data@, 24) == Some(e),
    {
        if data.len() < 24 {
            return Err(TcNetError::PacketTooShort { expected: 24, actual: data.len() });
        }
        if !(data[4] == 84u8 && data[5] == 67u8 && data[6] == 78u8) {
            return Err(TcNetError::InvalidHeader([data[4], data[5], data[6]]));
        }
        let node_id = read_u16_le(data, 0);
        let version_major = data[2];
        let version_minor = data[3];
        let header_sig = read_fixed::<3>(data, 4);
        assert(header_sig@ =~= data@.subrange(4, 7));
        let message_type = data[7];
        let node_name = FixedStr::<8>::read_at(data, 8);
        let sequence = data[16];
        let node_type = data[17];
        let node_options = read_u16_le(data, 18);
        let timestamp_us = read_u32_le(data, 20);
        Ok(RawManagementHeader { node_id, version_major, version_minor, header_sig, message_type, node_name, sequence, node_type, node_options, timestamp_us })
    }
}

/// Raw Opt-IN packet as it appears on the wire.
#[derive(Debug, Clone, Copy)]
pub struct RawOptInPacket {
    /// Management header (bytes 0-23)
    pub header: RawManagementHeader,
    /// Number of nodes registered (bytes 24-25)
    pub node_count: u16,
    /// Listener port (bytes 26-27)
    pub listener_port: u16,
    /// Uptime in seconds (bytes 28-29)
    pub uptime_secs: u16,
    /// Vendor name (bytes 32-47)
    pub vendor_name: FixedStr<16>,
    /// Application name (bytes 48-63)
    pub app_name: FixedStr<16>,
    /// App version major (byte 64)
    pub app_version_major: u8,
    /// App version minor (byte 65)
    pub app_version_minor: u8,
    /// App version bug (byte 66)
    pub app_version_bug: u8,
}

impl RawOptInPacket {
    /// Whether each field holds the bytes the wire format gives it.
    pub open spec fn reads_from(self, s: Seq<u8>) -> bool {
        (self.header.reads_from(s))
        && (self.node_count == u16_at(s, 24))
        && (self.listener_port == u16_at(s, 26))
        && (self.uptime_secs == u16_at(s, 28))
        && (self.vendor_name.reads_at(s, 32))
        && (self.app_name.reads_at(s, 48))
        && (self.app_version_major == s[64])
        && (self.app_version_minor == s[65])
        && (self.app_version_bug == s[66])
    }

    /// Reads the record from the start of `data`.
    pub fn read(data: &[u8]) -> (r: Result<Self, TcNetError>)
        ensures
            r is Ok <==> raw_error(data@, 68) is None,
            r matches Ok(v) ==> v.reads_from(data@),
            r matches Err(e) ==> raw_error(data@, 68) == Some(e),
    {
        if data.len() < 68 {
            return Err(TcNetError::PacketTooShort { expected: 68, actual: data.len() });
        }
        let header = match RawManagementHeader::read(data) {
            Ok(h) => h,
            Err(e) => return Err(e),
        };
        let node_count = read_u16_le(data, 24);
        let listener_port = read_u16_le(data, 26);
        let uptime_secs = read_u16_le(data, 28);
        let vendor_name = FixedStr::<16>::read_at(data, 32);
        let app_name = FixedStr::<16>::read_at(data, 48);
        let app_version_major = data[64];
        let app_version_minor = data[65];
        let app_version_bug = data[66];
        Ok(RawOptInPacket { header, node_count, listener_port, uptime_secs, vendor_name, app_name, app_version_major, app_version_minor, app_version_bug })
    }
}

/// Raw Status packet as it appears on the wire.
#[derive(Debug, Clone, Copy)]
pub struct RawStatusPacket {
    /// Management header (bytes 0-23)
    pub header: RawManagementHeader,
    /// Number of nodes registered (bytes 24-25)
    pub node_count: u16,
    /// Listener port (bytes 26-27)
    pub listener_port: u16,
    /// Layer sources (bytes 34-41)
    pub layer_sources: [u8; 8],
    /// Layer statuses (bytes 42-49)
    pub layer_statuses: [u8; 8],
    /// Layer track IDs (bytes 50-81)
    pub layer_track_ids: [u32; 8],
    /// SMPTE mode (byte 83)
    pub smpte_mode: u8,
    /// Auto master mode (byte 84)
    pub auto_master_mode: u8,
    /// Layer names (bytes 172-299, 16 bytes each)
    pub layer_names: [FixedStr<16>; 8],
}

impl RawStatusPacket {
    /// Whether each field holds the bytes the wire format gives it.
    pub open spec fn reads_from(self, s: Seq<u8>) -> bool {
        (self.header.reads_from(s))
        && (self.node_count == u16_at(s, 24))
        && (self.listener_port == u16_at(s, 26))
        && (self.layer_sources@ == s.subrange(34, 42))
        && (self.layer_statuses@ == s.subrange(42, 50))
        && (forall|i: int| 0 <= i < 8 ==> #[trigger] self.layer_track_ids[i] == u32_at(s, 50 + 4 * i))
        && (self.smpte_mode == s[83])
        && (self.auto_master_mode == s[84])
        && (forall|i: int| 0 <= i < 8 ==> #[trigger] self.layer_names[i].reads_at(s, 172 + 16 * i))
    }

    /// Reads the record from the start of `data`.
    pub fn read(data: &[u8]) -> (r: Result<Self, TcNetError>)
        ensures
            r is Ok <==> raw_error(data@, 300) is None,
            r matches Ok(v) ==> v.reads_from(data@),
            r matches Err(e) ==> raw_error(data@, 300) == Some(e),
    {
        if data.len() < 300 {
            return Err(TcNetError::PacketTooShort { expected: 300, actual: data.len() });
        }
        let header = match RawManagementHeader::read(data) {
            Ok(h) => h,
            Err(e) => return Err(e),
        };
        let node_count = read_u16_le(data, 24);
        let listener_port = read_u16_le(data, 26);
        let layer_sources = read_fixed::<8>(data, 34);
        assert(layer_sources@ =~= data@.subrange(34, 42));
        let layer_statuses = read_fixed::<8>(data, 42);
        assert(layer_statuses@ =~= data@.subrange(42, 50));
        let layer_track_ids = [read_u32_le(data, 50 + 0), read_u32_le(data, 50 + 4), read_u32_le(data, 50 + 8), read_u32_le(data, 50 + 12), read_u32_le(data, 50 + 16), read_u32_le(data, 50 + 20), read_u32_le(data, 50 + 24), read_u32_le(data, 50 + 28)];
        let smpte_mode = data[83];
        let auto_master_mode = data[84];
        let layer_names = [FixedStr::<16>::read_at(data, 172 + 0), FixedStr::<16>::read_at(data, 172 + 16), FixedStr::<16>::read_at(data, 172 + 32), FixedStr::<16>::read_at(data, 172 + 48), FixedStr::<16>::read_at(data, 172 + 64), FixedStr::<16>::read_at(data, 172 + 80), FixedStr::<16>::read_at(data, 172 + 96), FixedStr::<16>::read_at(data, 172 + 112)];
        Ok(RawStatusPacket { header, node_count, listener_port, layer_sources, layer_statuses, layer_track_ids, smpte_mode, auto_master_mode, layer_names })
    }
}

/// Per-layer SMPTE/timecode data (6 bytes per layer).
#[derive(Debug, Clone, Copy)]
pub struct RawLayerTimecode {
    /// SMPTE mode (0 = use general)
    pub smpte_mode: u8,
    /// Timecode state
    pub tc_state: u8,
    /// Hours
    pub hours: u8,
    /// Minutes
    pub minutes: u8,
    /// Seconds
    pub seconds: u8,
    /// Frames
    pub frames: u8,
}

impl RawLayerTimecode {
    /// Whether each field holds the bytes the wire format gives it (record at `off`).
    pub open spec fn reads_at(self, s: Seq<u8>, off: int) -> bool {
        (self.smpte_mode == s[off + 0])
        && (self.tc_state == s[off + 1])
        && (self.hours == s[off + 2])
        && (self.minutes == s[off + 3])
        && (self.seconds == s[off + 4])
        && (self.frames == s[off + 5])
    }

    /// Reads the record that starts at `off`.
    pub fn read_at(data: &[u8], off: usize) -> (r: Self)
        requires
            off + 6 <= data@.len(),
        ensures
            r.reads_at(data@, off as int),
    {
        let smpte_mode = data[off + 0];
        let tc_state = data[off + 1];
        let hours = data[off + 2];
        let minutes = data[off + 3];
        let seconds = data[off + 4];
        let frames = data[off + 5];
        RawLayerTimecode { smpte_mode, tc_state, hours, minutes, seconds, frames }
    }
}

/// Raw Time packet as it appears on the wire (the optional on-air bytes are read separately).
#[derive(Debug, Clone, Copy)]
pub struct RawTimePacket {
    /// Management header (bytes 0-23)
    pub header: RawManagementHeader,
    /// Layer times in ms (bytes 24-55)
    pub layer_times: [u32; 8],
    /// Layer total times in ms (bytes 56-87)
    pub layer_total_times: [u32; 8],
    /// Beat markers (bytes 88-95)
    pub beat_markers: [u8; 8],
    /// Layer states (bytes 96-103)
    pub layer_states: [u8; 8],
    /// General SMPTE mode (byte 105)
    pub smpte_mode: u8,
    /// Per-layer timecode data (bytes 106-153)
    pub layer_timecodes: [RawLayerTimecode; 8],
}

impl RawTimePacket {
    /// Whether each field holds the bytes the wire format gives it.
    pub open spec fn reads_from(self, s: Seq<u8>) -> bool {
        (self.header.reads_from(s))
        && (forall|i: int| 0 <= i < 8 ==> #[trigger] self.layer_times[i] == u32_at(s, 24 + 4 * i))
        && (forall|i: int| 0 <= i < 8 ==> #[trigger] self.layer_total_times[i] == u32_at(s, 56 + 4 * i))
        && (self.beat_markers@ == s.subrange(88, 96))
        && (self.layer_states@ == s.subrange(96, 104))
        && (self.smpte_mode == s[105])
        && (forall|i: int| 0 <= i < 8 ==> #[trigger] self.layer_timecodes[i].reads_at(s, 106 + 6 * i))
    }

    /// Reads the record from the start of `data`.
    pub fn read(data: &[u8]) -> (r: Result<Self, TcNetError>)
        ensures
            r is Ok <==> raw_error(data@, 154) is None,
            r matches Ok(v) ==> v.reads_from(data@),
            r matches Err(e) ==> raw_error(data@, 154) == Some(e),
    {
        if data.len() < 154 {
            return Err(TcNetError::PacketTooShort { expected: 154, actual: data.len() });
        }
        let header = match RawManagementHeader::read(data) {
            Ok(h) => h,
            Err(e) => return Err(e),
        };
        let layer_times = [read_u32_le(data, 24 + 0), read_u32_le(data, 24 + 4), read_u32_le(data, 24 + 8), read_u32_le(data, 24 + 12), read_u32_le(data, 24 + 16), read_u32_le(data, 24 + 20), read_u32_le(data, 24 + 24), read_u32_le(data, 24 + 28)];
        let layer_total_times = [read_u32_le(data, 56 + 0), read_u32_le(data, 56 + 4), read_u32_le(data, 56 + 8), read_u32_le(data, 56 + 12), read_u32_le(data, 56 + 16), read_u32_le(data, 56 + 20), read_u32_le(data, 56 + 24), read_u32_le(data, 56 + 28)];
        let beat_markers = read_fixed::<8>(data, 88);
        assert(beat_markers@ =~= data@.subrange(88, 96));
        let layer_states = read_fixed::<8>(data, 96);
        assert(layer_states@ =~= data@.subrange(96, 104));
        let smpte_mode = data[105];
        let layer_timecodes = [RawLayerTimecode::read_at(data, 106 + 0), RawLayerTimecode::read_at(data, 106 + 6), RawLayerTimecode::read_at(data, 106 + 12), RawLayerTimecode::read_at(data, 106 + 18), RawLayerTimecode::read_at(data, 106 + 24), RawLayerTimecode::read_at(data, 106 + 30), RawLayerTimecode::read_at(data, 106 + 36), RawLayerTimecode::read_at(data, 106 + 42)];
        Ok(RawTimePacket { header, layer_times, layer_total_times, beat_markers, layer_states, smpte_mode, layer_timecodes })
    }
}

/// Optional on-air data for V3.3.3+ time packets.
#[derive(Debug, Clone, Copy)]
pub struct RawOnAirData {
    /// On-air state per layer
    pub on_air: [u8; 8],
}

impl RawOnAirData {
    /// Whether each field holds the bytes the wire format gives it (record at `off`).
    pub open spec fn reads_at(self, s: Seq<u8>, off: int) -> bool {
        (self.on_air@ == s.subrange(off + 0, off + 8))
    }

    /// Reads the record that starts at `off`.
    pub fn read_at(data: &[u8], off: usize) -> (r: Self)
        requires
            off + 8 <= data@.len(),
        ensures
            r.reads_at(data@, off as int),
    {
        let on_air = read_fixed::<8>(data, off + 0);
        assert(on_air@ =~= data@.subrange(off + 0, off + 8));
        RawOnAirData { on_air }
    }
}

/// Raw mixer channel data (14 data bytes + 10 reserved = 24 bytes per channel).
#[derive(Debug, Clone, Copy)]
pub struct RawMixerChannel {
    /// Source select
    pub source_select: u8,
    /// Audio level (0-255)
    pub audio_level: u8,
    /// Fader level (0-255)
    pub fader_level: u8,
    /// Trim level (0-255)
    pub trim_level: u8,
    /// Compressor level (0-255)
    pub comp_level: u8,
    /// EQ Hi level (0-255)
    pub eq_hi: u8,
    /// EQ Hi Mid level (0-255)
    pub eq_hi_mid: u8,
    /// EQ Low Mid level (0-255)
    pub eq_low_mid: u8,
    /// EQ Low level (0-255)
    pub eq_low: u8,
    /// Filter/Color (0-255)
    pub filter_color: u8,
    /// Send level (0-255)
    pub send: u8,
    /// CUE A (0-255)
    pub cue_a: u8,
    /// CUE B (0-255)
    pub cue_b: u8,
    /// Crossfader assign (0-255)
    pub crossfader_assign: u8,
}

impl RawMixerChannel {
    /// Whether each field holds the bytes the wire format gives it (record at `off`).
    pub open spec fn reads_at(self, s: Seq<u8>, off: int) -> bool {
        (self.source_select == s[off + 0])
        && (self.audio_level == s[off + 1])
        && (self.fader_level == s[off + 2])
        && (self.trim_level == s[off + 3])
        && (self.comp_level == s[off + 4])
        && (self.eq_hi == s[off + 5])
        && (self.eq_hi_mid == s[off + 6])
        && (self.eq_low_mid == s[off + 7])
        && (self.eq_low == s[off + 8])
        && (self.filter_color == s[off + 9])
        && (self.send == s[off + 10])
        && (self.cue_a == s[off + 11])
        && (self.cue_b == s[off + 12])
        && (self.crossfader_assign == s[off + 13])
    }

    /// Reads the record that starts at `off`.
    pub fn read_at(data: &[u8], off: usize) -> (r: Self)
        requires
            off + 24 <= data@.len(),
        ensures
            r.reads_at(data@, off as int),
    {
        let source_select = data[off + 0];
        let audio_level = data[off + 1];
        let fader_level = data[off + 2];
        let trim_level = data[off + 3];
        let comp_level = data[off + 4];
        let eq_hi = data[off + 5];
        let eq_hi_mid = data[off + 6];
        let eq_low_mid = data[off + 7];
        let eq_low = data[off + 8];
        let filter_color = data[off + 9];
        let send = data[off + 10];
        let cue_a = data[off + 11];
        let cue_b = data[off + 12];
        let crossfader_assign = data[off + 13];
        RawMixerChannel { source_select, audio_level, fader_level, trim_level, comp_level, eq_hi, eq_hi_mid, eq_low_mid, eq_low, filter_color, send, cue_a, cue_b, crossfader_assign }
    }
}

/// Raw Request packet as it appears on the wire (26 bytes).
#[derive(Debug, Clone, Copy)]
pub struct RawRequestPacket {
    /// Management header (bytes 0-23)
    pub header: RawManagementHeader,
    /// Data type to request (byte 24)
    pub data_type: u8,
    /// Layer to request data for (byte 25)
    pub layer: u8,
}

impl RawRequestPacket {
    /// Whether each field holds the bytes the wire format gives it.
    pub open spec fn reads_from(self, s: Seq<u8>) -> bool {
        (self.header.reads_from(s))
        && (self.data_type == s[24])
        && (self.layer == s[25])
    }

    /// Reads the record from the start of `data`.
    pub fn read(data: &[u8]) -> (r: Result<Self, TcNetError>)
        ensures
            r is Ok <==> raw_error(data@, 26) is None,
            r matches Ok(v) ==> v.reads_from(data@),
            r matches Err(e) ==> raw_error(data@, 26) == Some(e),
    {
        if data.len() < 26 {
            return Err(TcNetError::PacketTooShort { expected: 26, actual: data.len() });
        }
        let header = match RawManagementHeader::read(data) {
            Ok(h) => h,
            Err(e) => return Err(e),
        };
        let data_type = data[24];
        let layer = data[25];
        Ok(RawRequestPacket { header, data_type, layer })
    }
}

/// Raw Error/Notification packet as it appears on the wire (30 bytes).
#[derive(Debug, Clone, Copy)]
pub struct RawErrorNotificationPacket {
    /// Management header (bytes 0-23)
    pub header: RawManagementHeader,
    /// Data type of the failed request (byte 24)
    pub data_type: u8,
    /// Layer ID of the original request (byte 25)
    pub layer_id: u8,
    /// Returned code (bytes 26-27)
    pub code: u16,
    /// Message type of the request (bytes 28-29)
    pub request_message_type: u16,
}

impl RawErrorNotificationPacket {
    /// Whether each field holds the bytes the wire format gives it.
    pub open spec fn reads_from(self, s: Seq<u8>) -> bool {
        (self.header.reads_from(s))
        && (self.data_type == s[24])
        && (self.layer_id == s[25])
        && (self.code == u16_at(s, 26))
        && (self.request_message_type == u16_at(s, 28))
    }

    /// Reads the record from the start of `data`.
    pub fn read(data: &[u8]) -> (r: Result<Self, TcNetError>)
        ensures
            r is Ok <==> raw_error(data@, 30) is None,
            r matches Ok(v) ==> v.reads_from(data@),
            r matches Err(e) ==> raw_error(data@, 30) == Some(e),
    {
        if data.len() < 30 {
            return Err(TcNetError::PacketTooShort { expected: 30, actual: data.len() });
        }
        let header = match RawManagementHeader::read(data) {
            Ok(h) => h,
            Err(e) => return Err(e),
        };
        let data_type = data[24];
        let layer_id = data[25];
        let code = read_u16_le(data, 26);
        let request_message_type = read_u16_le(data, 28);
        Ok(RawErrorNotificationPacket { header, data_type, layer_id, code, request_message_type })
    }
}

/// Raw Metrics Data packet as it appears on the wire (122 bytes).
#[derive(Debug, Clone, Copy)]
pub struct RawMetricsDataPacket {
    /// Management header (bytes 0-23)
    pub header: RawManagementHeader,
    /// Data type (byte 24)
    pub data_type: u8,
    /// Layer ID (byte 25)
    pub layer_id: u8,
    /// Layer state (byte 27)
    pub layer_state: u8,
    /// Sync master (byte 29)
    pub sync_master: u8,
    /// Beat marker (byte 31)
    pub beat_marker: u8,
    /// Track length in ms (bytes 32-35)
    pub track_length_ms: u32,
    /// Play head position in ms (bytes 36-39)
    pub current_position_ms: u32,
    /// Play head speed (bytes 40-43)
    pub speed: u32,
    /// Beat number (bytes 57-60)
    pub beat_number: u32,
    /// BPM in hundredths (bytes 112-115)
    pub bpm: u32,
    /// Pitch bend (bytes 116-117)
    pub pitch_bend: u16,
    /// Track ID (bytes 118-121)
    pub track_id: u32,
}

impl RawMetricsDataPacket {
    /// Whether each field holds the bytes the wire format gives it.
    pub open spec fn reads_from(self, s: Seq<u8>) -> bool {
        (self.header.reads_from(s))
        && (self.data_type == s[24])
        && (self.layer_id == s[25])
        && (self.layer_state == s[27])
        && (self.sync_master == s[29])
        && (self.beat_marker == s[31])
        && (self.track_length_ms == u32_at(s, 32))
        && (self.current_position_ms == u32_at(s, 36))
        && (self.speed == u32_at(s, 40))
        && (self.beat_number == u32_at(s, 57))
        && (self.bpm == u32_at(s, 112))
        && (self.pitch_bend == u16_at(s, 116))
        && (self.track_id == u32_at(s, 118))
    }

    /// Reads the record from the start of `data`.
    pub fn read(data: &[u8]) -> (r: Result<Self, TcNetError>)
        ensures
            r is Ok <==> raw_error(data@, 122) is None,
            r matches Ok(v) ==> v.reads_from(data@),
            r matches Err(e) ==> raw_error(data@, 122) == Some(e),
    {
        if data.len() < 122 {
            return Err(TcNetError::PacketTooShort { expected: 122, actual: data.len() });
        }
        let header = match RawManagementHeader::read(data) {
            Ok(h) => h,
            Err(e) => return Err(e),
        };
        let data_type = data[24];
        let layer_id = data[25];
        let layer_state = data[27];
        let sync_master = data[29];
        let beat_marker = data[31];
        let track_length_ms = read_u32_le(data, 32);
        let current_position_ms = read_u32_le(data, 36);
        let speed = read_u32_le(data, 40);
        let beat_number = read_u32_le(data, 57);
        let bpm = read_u32_le(data, 112);
        let pitch_bend = read_u16_le(data, 116);
        let track_id = read_u32_le(data, 118);
        Ok(RawMetricsDataPacket { header, data_type, layer_id, layer_state, sync_master, beat_marker, track_length_ms, current_position_ms, speed, beat_number, bpm, pitch_bend, track_id })
    }
}

/// Raw Metadata packet as it appears on the wire (548 bytes).
#[derive(Debug, Clone, Copy)]
pub struct RawMetadataPacket {
    /// Management header (bytes 0-23)
    pub header: RawManagementHeader,
    /// Data type (byte 24)
    pub data_type: u8,
    /// Layer ID (byte 25)
    pub layer_id: u8,
    /// Track artist (bytes 29-284)
    pub track_artist: FixedStr<256>,
    /// Track title (bytes 285-540)
    pub track_title: FixedStr<256>,
    /// Track key (bytes 541-542)
    pub track_key: u16,
    /// Track ID (bytes 543-546)
    pub track_id: u32,
}

impl RawMetadataPacket {
    /// Whether each field holds the bytes the wire format gives it.
    pub open spec fn reads_from(self, s: Seq<u8>) -> bool {
        (self.header.reads_from(s))
        && (self.data_type == s[24])
        && (self.layer_id == s[25])
        && (self.track_artist.reads_at(s, 29))
        && (self.track_title.reads_at(s, 285))
        && (self.track_key == u16_at(s, 541))
        && (self.track_id == u32_at(s, 543))
    }

    /// Reads the record from the start of `data`.
    pub fn read(data: &[u8]) -> (r: Result<Self, TcNetError>)
        ensures
            r is Ok <==> raw_error(data@, 548) is None,
            r matches Ok(v) ==> v.reads_from(data@),
            r matches Err(e) ==> raw_error(data@, 548) == Some(e),
    {
        if data.len() < 548 {
            return Err(TcNetError::PacketTooShort { expected: 548, actual: data.len() });
        }
        let header = match RawManagementHeader::read(data) {
            Ok(h) => h,
            Err(e) => return Err(e),
        };
        let data_type = data[24];
        let layer_id = data[25];
        let track_artist = FixedStr::<256>::read_at(data, 29);
        let track_title = FixedStr::<256>::read_at(data, 285);
        let track_key = read_u16_le(data, 541);
        let track_id = read_u32_le(data, 543);
        Ok(RawMetadataPacket { header, data_type, layer_id, track_artist, track_title, track_key, track_id })
    }
}

/// Raw Mixer Data packet as it appears on the wire (270 bytes).
#[derive(Debug, Clone, Copy)]
pub struct RawMixerDataPacket {
    /// Management header (bytes 0-23)
    pub header: RawManagementHeader,
    /// Data type (byte 24) - 150 for Mixer Data
    pub data_type: u8,
    /// Mixer ID (byte 25)
    pub mixer_id: u8,
    /// Mixer type (byte 26) - 0=Standard, 2=Extended
    pub mixer_type: u8,
    /// Mixer name (bytes 29-44)
    pub mixer_name: FixedStr<16>,
    /// Mic eq hi (byte 59)
    pub mic_eq_hi: u8,
    /// Mic eq low (byte 60)
    pub mic_eq_low: u8,
    /// Master audio level (byte 61)
    pub master_audio_level: u8,
    /// Master fader level (byte 62)
    pub master_fader_level: u8,
    /// Link cue a (byte 67)
    pub link_cue_a: u8,
    /// Link cue b (byte 68)
    pub link_cue_b: u8,
    /// Master filter (byte 69)
    pub master_filter: u8,
    /// Master cue a (byte 71)
    pub master_cue_a: u8,
    /// Master cue b (byte 72)
    pub master_cue_b: u8,
    /// Master isolator on (byte 74)
    pub master_isolator_on: u8,
    /// Master isolator hi (byte 75)
    pub master_isolator_hi: u8,
    /// Master isolator mid (byte 76)
    pub master_isolator_mid: u8,
    /// Master isolator low (byte 77)
    pub master_isolator_low: u8,
    /// Filter hpf (byte 79)
    pub filter_hpf: u8,
    /// Filter lpf (byte 80)
    pub filter_lpf: u8,
    /// Filter resonance (byte 81)
    pub filter_resonance: u8,
    /// Send fx effect (byte 84)
    pub send_fx_effect: u8,
    /// Send fx ext1 (byte 85)
    pub send_fx_ext1: u8,
    /// Send fx ext2 (byte 86)
    pub send_fx_ext2: u8,
    /// Send fx master mix (byte 87)
    pub send_fx_master_mix: u8,
    /// Send fx size feedback (byte 88)
    pub send_fx_size_feedback: u8,
    /// Send fx time (byte 89)
    pub send_fx_time: u8,
    /// Send fx hpf (byte 90)
    pub send_fx_hpf: u8,
    /// Send fx level (byte 91)
    pub send_fx_level: u8,
    /// Send return3 source (byte 92)
    pub send_return3_source: u8,
    /// Send return3 type (byte 93)
    pub send_return3_type: u8,
    /// Send return3 on (byte 94)
    pub send_return3_on: u8,
    /// Send return3 level (byte 95)
    pub send_return3_level: u8,
    /// Channel fader curve (byte 97)
    pub channel_fader_curve: u8,
    /// Crossfader curve (byte 98)
    pub crossfader_curve: u8,
    /// Crossfader (byte 99)
    pub crossfader: u8,
    /// Beat fx on (byte 100)
    pub beat_fx_on: u8,
    /// Beat fx level (byte 101)
    pub beat_fx_level: u8,
    /// Beat fx channel (byte 102)
    pub beat_fx_channel: u8,
    /// Beat fx select (byte 103)
    pub beat_fx_select: u8,
    /// Beat fx freq hi (byte 104)
    pub beat_fx_freq_hi: u8,
    /// Beat fx freq mid (byte 105)
    pub beat_fx_freq_mid: u8,
    /// Beat fx freq low (byte 106)
    pub beat_fx_freq_low: u8,
    /// Headphones pre eq (byte 107)
    pub headphones_pre_eq: u8,
    /// Headphones a level (byte 108)
    pub headphones_a_level: u8,
    /// Headphones a mix (byte 109)
    pub headphones_a_mix: u8,
    /// Headphones b level (byte 110)
    pub headphones_b_level: u8,
    /// Headphones b mix (byte 111)
    pub headphones_b_mix: u8,
    /// Booth level (byte 112)
    pub booth_level: u8,
    /// Booth eq hi (byte 113)
    pub booth_eq_hi: u8,
    /// Booth eq low (byte 114)
    pub booth_eq_low: u8,
    /// Channel 1-6 data (bytes 125-268, 24 bytes each)
    pub channels: [RawMixerChannel; 6],
}

impl RawMixerDataPacket {
    /// Whether each field holds the bytes the wire format gives it.
    pub open spec fn reads_from(self, s: Seq<u8>) -> bool {
        (self.header.reads_from(s))
        && (self.data_type == s[24])
        && (self.mixer_id == s[25])
        && (self.mixer_type == s[26])
        && (self.mixer_name.reads_at(s, 29))
        && (self.mic_eq_hi == s[59])
        && (self.mic_eq_low == s[60])
        && (self.master_audio_level == s[61])
        && (self.master_fader_level == s[62])
        && (self.link_cue_a == s[67])
        && (self.link_cue_b == s[68])
        && (self.master_filter == s[69])
        && (self.master_cue_a == s[71])
        && (self.master_cue_b == s[72])
        && (self.master_isolator_on == s[74])
        && (self.master_isolator_hi == s[75])
        && (self.master_isolator_mid == s[76])
        && (self.master_isolator_low == s[77])
        && (self.filter_hpf == s[79])
        && (self.filter_lpf == s[80])
        && (self.filter_resonance == s[81])
        && (self.send_fx_effect == s[84])
        && (self.send_fx_ext1 == s[85])
        && (self.send_fx_ext2 == s[86])
        && (self.send_fx_master_mix == s[87])
        && (self.send_fx_size_feedback == s[88])
        && (self.send_fx_time == s[89])
        && (self.send_fx_hpf == s[90])
        && (self.send_fx_level == s[91])
        && (self.send_return3_source == s[92])
        && (self.send_return3_type == s[93])
        && (self.send_return3_on == s[94])
        && (self.send_return3_level == s[95])
        && (self.channel_fader_curve == s[97])
        && (self.crossfader_curve == s[98])
        && (self.crossfader == s[99])
        && (self.beat_fx_on == s[100])
        && (self.beat_fx_level == s[101])
        && (self.beat_fx_channel == s[102])
        && (self.beat_fx_select == s[103])
        && (self.beat_fx_freq_hi == s[104])
        && (self.beat_fx_freq_mid == s[105])
        && (self.beat_fx_freq_low == s[106])
        && (self.headphones_pre_eq == s[107])
        && (self.headphones_a_level == s[108])
        && (self.headphones_a_mix == s[109])
        && (self.headphones_b_level == s[110])
        && (self.headphones_b_mix == s[111])
        && (self.booth_level == s[112])
        && (self.booth_eq_hi == s[113])
        && (self.booth_eq_low == s[114])
        && (forall|i: int| 0 <= i < 6 ==> #[trigger] self.channels[i].reads_at(s, 125 + 24 * i))
    }

    /// Reads the record from the start of `data`.
    pub fn read(data: &[u8]) -> (r: Result<Self, TcNetError>)
        ensures
            r is Ok <==> raw_error(data@, 270) is None,
            r matches Ok(v) ==> v.reads_from(data@),
            r matches Err(e) ==> raw_error(data@, 270) == Some(e),
    {
        if data.len() < 270 {
            return Err(TcNetError::PacketTooShort { expected: 270, actual: data.len() });
        }
        let header = match RawManagementHeader::read(data) {
            Ok(h) => h,
            Err(e) => return Err(e),
        };
        let data_type = data[24];
        let mixer_id = data[25];
        let mixer_type = data[26];
        let mixer_name = FixedStr::<16>::read_at(data, 29);
        let mic_eq_hi = data[59];
        let mic_eq_low = data[60];
        let master_audio_level = data[61];
        let master_fader_level = data[62];
        let link_cue_a = data[67];
        let link_cue_b = data[68];
        let master_filter = data[69];
        let master_cue_a = data[71];
        let master_cue_b = data[72];
        let master_isolator_on = data[74];
        let master_isolator_hi = data[75];
        let master_isolator_mid = data[76];
        let master_isolator_low = data[77];
        let filter_hpf = data[79];
        let filter_lpf = data[80];
        let filter_resonance = data[81];
        let send_fx_effect = data[84];
        let send_fx_ext1 = data[85];
        let send_fx_ext2 = data[86];
        let send_fx_master_mix = data[87];
        let send_fx_size_feedback = data[88];
        let send_fx_time = data[89];
        let send_fx_hpf = data[90];
        let send_fx_level = data[91];
        let send_return3_source = data[92];
        let send_return3_type = data[93];
        let send_return3_on = data[94];
        let send_return3_level = data[95];
        let channel_fader_curve = data[97];
        let crossfader_curve = data[98];
        let crossfader = data[99];
        let beat_fx_on = data[100];
        let beat_fx_level = data[101];
        let beat_fx_channel = data[102];
        let beat_fx_select = data[103];
        let beat_fx_freq_hi = data[104];
        let beat_fx_freq_mid = data[105];
        let beat_fx_freq_low = data[106];
        let headphones_pre_eq = data[107];
        let headphones_a_level = data[108];
        let headphones_a_mix = data[109];
        let headphones_b_level = data[110];
        let headphones_b_mix = data[111];
        let booth_level = data[112];
        let booth_eq_hi = data[113];
        let booth_eq_low = data[114];
        let channels = [RawMixerChannel::read_at(data, 125 + 0), RawMixerChannel::read_at(data, 125 + 24), RawMixerChannel::read_at(data, 125 + 48), RawMixerChannel::read_at(data, 125 + 72), RawMixerChannel::read_at(data, 125 + 96), RawMixerChannel::read_at(data, 125 + 120)];
        Ok(RawMixerDataPacket { header, data_type, mixer_id, mixer_type, mixer_name, mic_eq_hi, mic_eq_low, master_audio_level, master_fader_level, link_cue_a, link_cue_b, master_filter, master_cue_a, master_cue_b, master_isolator_on, master_isolator_hi, master_isolator_mid, master_isolator_low, filter_hpf, filter_lpf, filter_resonance, send_fx_effect, send_fx_ext1, send_fx_ext2, send_fx_master_mix, send_fx_size_feedback, send_fx_time, send_fx_hpf, send_fx_level, send_return3_source, send_return3_type, send_return3_on, send_return3_level, channel_fader_curve, crossfader_curve, crossfader, beat_fx_on, beat_fx_level, beat_fx_channel, beat_fx_select, beat_fx_freq_hi, beat_fx_freq_mid, beat_fx_freq_low, headphones_pre_eq, headphones_a_level, headphones_a_mix, headphones_b_level, headphones_b_mix, booth_level, booth_eq_hi, booth_eq_low, channels })
    }
}

} // verus!
