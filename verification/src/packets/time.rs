//! Time Packet (Type 254) parsing.
//!
//! Time packets contain real-time timing data for up to 8 layers.
use vstd::prelude::*;
use crate::bytes::u32_at;
use crate::error::TcNetError;
use crate::header::ManagementHeader;
use crate::packets::packet_error;
use crate::types::{
    Layer, LayerState, SmpteMode, Timecode, TimecodeState, TIME_PACKET_MIN_SIZE, TIME_PACKET_SIZE,
};
use crate::wire::{RawOnAirData, RawTimePacket};

verus! {

/// Timing data for a single layer.
#[derive(Debug, Clone, Copy, Default)]
pub struct LayerTimeData {
    /// Layer identifier
    pub layer: Layer,
    /// Current time in milliseconds
    pub time_ms: u32,
    /// Total track time in milliseconds
    pub total_time_ms: u32,
    /// Beat marker position (0=unknown, 1-4=position)
    pub beat_marker: u8,
    /// Layer playback state
    pub state: LayerState,
    /// SMPTE mode for this layer (0 = use general)
    pub smpte_mode: SmpteMode,
    /// Timecode state
    pub tc_state: TimecodeState,
    /// SMPTE timecode
    pub timecode: Timecode,
    /// On-air state / fader position (0-255)
    pub on_air: u8,
}

impl LayerTimeData {
    /// Whether this layer is producing timecode.
    pub open spec fn spec_is_active(self) -> bool {
        self.state.spec_is_active() || self.tc_state == TimecodeState::Running
    }

    /// Check if this layer is actively producing timecode.
    pub fn is_active(&self) -> (r: bool)
        ensures
            r == self.spec_is_active(),
    {
        self.state.is_active() || self.tc_state == TimecodeState::Running
    }

    /// Get remaining time in milliseconds.
    pub fn remaining_ms(&self) -> (r: u32)
        ensures
            r == (if self.time_ms <= self.total_time_ms {
                self.total_time_ms - self.time_ms
            } else {
                0
            }),
    {
        self.total_time_ms.saturating_sub(self.time_ms)
    }
}

/// The timing data of layer `i` that the bytes `s` of a time packet encode.
pub open spec fn layer_time_at(s: Seq<u8>, i: int) -> LayerTimeData {
    let t = 106 + 6 * i;
    let general = SmpteMode::spec_from_u8(s[105]);
    LayerTimeData {
        layer: Layer::at_or_first(i),
        time_ms: u32_at(s, 24 + 4 * i),
        total_time_ms: u32_at(s, 56 + 4 * i),
        beat_marker: s[88 + i],
        state: LayerState::spec_from_u8(s[96 + i]),
        smpte_mode: if s[t] == 0 {
            general
        } else {
            SmpteMode::spec_from_u8(s[t])
        },
        tc_state: TimecodeState::spec_from_u8(s[t + 1]),
        timecode: Timecode { hours: s[t + 2], minutes: s[t + 3], seconds: s[t + 4], frames: s[t + 5] },
        on_air: if s.len() >= 162 {
            s[154 + i]
        } else {
            0
        },
    }
}

/// Time Packet containing timing data for all layers.
#[derive(Debug, Clone, Copy)]
pub struct TimePacket {
    /// Common management header
    pub header: ManagementHeader,
    /// General SMPTE mode
    pub smpte_mode: SmpteMode,
    /// Layer timing data (8 layers)
    pub layers: [LayerTimeData; 8],
}

/// The layers of `ls` that are producing timecode, in order.
pub open spec fn active_time_layers(ls: Seq<LayerTimeData>) -> Seq<LayerTimeData> {
    ls.filter(|l: LayerTimeData| l.spec_is_active())
}

impl TimePacket {
    /// Whether this packet holds what the bytes `s` encode.
    pub open spec fn decodes(self, s: Seq<u8>) -> bool {
        &&& self.header.decodes(s)
        &&& self.smpte_mode == SmpteMode::spec_from_u8(s[105])
        &&& forall|i: int| 0 <= i < 8 ==> #[trigger] self.layers[i] == layer_time_at(s, i)
    }

    /// Parse a time packet from bytes.
    /// Supports both V3.3.3+ (162 bytes with on-air) and older (154 bytes without on-air).
    pub fn parse(data: &[u8]) -> (r: Result<Self, TcNetError>)
        ensures
            r is Ok <==> packet_error(data@, 154) is None,
            r matches Ok(p) ==> p.decodes(data@),
            r matches Err(e) ==> packet_error(data@, 154) == Some(e),
    {
        if data.len() < TIME_PACKET_MIN_SIZE {
            return Err(TcNetError::PacketTooShort { expected: TIME_PACKET_MIN_SIZE, actual: data.len() });
        }
        let raw = match RawTimePacket::read(data) {
            Ok(raw) => raw,
            Err(e) => return Err(e),
        };
        let on_air = if data.len() >= TIME_PACKET_SIZE {
            RawOnAirData::read_at(data, 154).on_air
        } else {
            [0u8; 8]
        };
        let header = match ManagementHeader::from_raw(raw.header) {
            Ok(h) => h,
            Err(e) => return Err(e),
        };
        let general_smpte = SmpteMode::from_u8(raw.smpte_mode);
        let layers = [
            Self::layer_from_raw(data, &raw, &on_air, general_smpte, 0),
            Self::layer_from_raw(data, &raw, &on_air, general_smpte, 1),
            Self::layer_from_raw(data, &raw, &on_air, general_smpte, 2),
            Self::layer_from_raw(data, &raw, &on_air, general_smpte, 3),
            Self::layer_from_raw(data, &raw, &on_air, general_smpte, 4),
            Self::layer_from_raw(data, &raw, &on_air, general_smpte, 5),
            Self::layer_from_raw(data, &raw, &on_air, general_smpte, 6),
            Self::layer_from_raw(data, &raw, &on_air, general_smpte, 7),
        ];
        Ok(Self { header, smpte_mode: general_smpte, layers })
    }

    /// The timing data of layer `i`, from the raw record of `data`.
    fn layer_from_raw(
        data: &[u8],
        raw: &RawTimePacket,
        on_air: &[u8; 8],
        general: SmpteMode,
        i: usize,
    ) -> (r: LayerTimeData)
        requires
            i < 8,
            data@.len() >= 154,
            raw.reads_from(data@),
            general == SmpteMode::spec_from_u8(data@[105]),
            forall|k: int|
                0 <= k < 8 ==> #[trigger] on_air[k] == (if data@.len() >= 162 {
                    data@[154 + k]
                } else {
                    0u8
                }),
        ensures
            r == layer_time_at(data@, i as int),
    {
        let tc = raw.layer_timecodes[i];
        assert(tc.reads_at(data@, 106 + 6 * i));
        assert(raw.layer_times[i as int] == u32_at(data@, 24 + 4 * i));
        assert(raw.layer_total_times[i as int] == u32_at(data@, 56 + 4 * i));
        assert(raw.beat_markers@[i as int] == data@[88 + i]);
        assert(raw.layer_states@[i as int] == data@[96 + i]);
        let layer_smpte = if tc.smpte_mode == 0 {
            general
        } else {
            SmpteMode::from_u8(tc.smpte_mode)
        };
        LayerTimeData {
            layer: Layer::from_index_or_first(i),
            time_ms: raw.layer_times[i],
            total_time_ms: raw.layer_total_times[i],
            beat_marker: raw.beat_markers[i],
            state: LayerState::from_u8(raw.layer_states[i]),
            smpte_mode: layer_smpte,
            tc_state: TimecodeState::from_u8(tc.tc_state),
            timecode: Timecode::new(tc.hours, tc.minutes, tc.seconds, tc.frames),
            on_air: on_air[i],
        }
    }

    /// Get only the active layers (playing or running timecode).
    pub fn active_layers(&self) -> (r: Vec<&LayerTimeData>)
        ensures
            r@.len() == active_time_layers(self.layers@).len(),
            forall|k: int| 0 <= k < r@.len() ==> *r@[k] == active_time_layers(self.layers@)[k],
    {
        let mut out: Vec<&LayerTimeData> = Vec::new();
        let mut i: usize = 0;
        while i < 8
            invariant
                i <= 8,
                out@.len() == active_time_layers(self.layers@.take(i as int)).len(),
                forall|k: int|
                    0 <= k < out@.len() ==> *out@[k] == active_time_layers(
                        self.layers@.take(i as int),
                    )[k],
            decreases 8 - i,
        {
            proof {
                reveal(Seq::filter);
                assert(self.layers@.take(i + 1).drop_last() =~= self.layers@.take(i as int));
            }
            if self.layers[i].is_active() {
                out.push(&self.layers[i]);
            }
            i = i + 1;
        }
        assert(self.layers@.take(8) =~= self.layers@);
        out
    }

    /// Get a specific layer by identifier.
    pub fn layer(&self, layer: Layer) -> (r: &LayerTimeData)
        ensures
            *r == self.layers[layer.spec_index()],
    {
        &self.layers[layer.index()]
    }
}

/// A time packet decoded from bytes holds, field by field, what the wire
/// record of those bytes reads under the same name; layer `i`'s times, beat
/// marker, state and timecode come from the record's entries at `i`, and a
/// layer SMPTE mode of 0 stands for the packet's general mode.
pub proof fn lemma_time_fields_by_name(p: TimePacket, raw: RawTimePacket, s: Seq<u8>)
    requires
        s.len() >= 154,
        raw.reads_from(s),
        p.decodes(s),
    ensures
        p.smpte_mode == SmpteMode::spec_from_u8(raw.smpte_mode),
        forall|i: int|
            0 <= i < 8 ==> {
                let t = raw.layer_timecodes[i];
                &&& #[trigger] p.layers[i].layer == Layer::at_or_first(i)
                &&& p.layers[i].time_ms == raw.layer_times[i]
                &&& p.layers[i].total_time_ms == raw.layer_total_times[i]
                &&& p.layers[i].beat_marker == raw.beat_markers[i]
                &&& p.layers[i].state == LayerState::spec_from_u8(raw.layer_states[i])
                &&& p.layers[i].smpte_mode == (if t.smpte_mode == 0 {
                    SmpteMode::spec_from_u8(raw.smpte_mode)
                } else {
                    SmpteMode::spec_from_u8(t.smpte_mode)
                })
                &&& p.layers[i].tc_state == TimecodeState::spec_from_u8(t.tc_state)
                &&& p.layers[i].timecode == (Timecode {
                    hours: t.hours,
                    minutes: t.minutes,
                    seconds: t.seconds,
                    frames: t.frames,
                })
            },
{
    crate::header::lemma_header_fields_by_name(p.header, raw.header, s);
    assert forall|i: int| 0 <= i < 8 implies {
        let t = raw.layer_timecodes[i];
        &&& #[trigger] p.layers[i].layer == Layer::at_or_first(i)
        &&& p.layers[i].time_ms == raw.layer_times[i]
        &&& p.layers[i].total_time_ms == raw.layer_total_times[i]
        &&& p.layers[i].beat_marker == raw.beat_markers[i]
        &&& p.layers[i].state == LayerState::spec_from_u8(raw.layer_states[i])
        &&& p.layers[i].smpte_mode == (if t.smpte_mode == 0 {
            SmpteMode::spec_from_u8(raw.smpte_mode)
        } else {
            SmpteMode::spec_from_u8(t.smpte_mode)
        })
        &&& p.layers[i].tc_state == TimecodeState::spec_from_u8(t.tc_state)
        &&& p.layers[i].timecode == (Timecode {
            hours: t.hours,
            minutes: t.minutes,
            seconds: t.seconds,
            frames: t.frames,
        })
    } by {
        assert(p.layers[i] == layer_time_at(s, i));
        assert(raw.layer_timecodes[i].reads_at(s, 106 + 6 * i));
        assert(raw.beat_markers@[i] == s[88 + i]);
        assert(raw.layer_states@[i] == s[96 + i]);
    }
}

} // verus!
