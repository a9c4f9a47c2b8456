//! Mixer Data Packet (Type 200, DataType 150) parsing.
//!
//! Mixer Data packets contain real-time mixer state including channel levels,
//! EQ settings, effects, and crossfader position.
use vstd::prelude::*;
use crate::error::TcNetError;
use crate::header::{header_error, ManagementHeader};
use crate::packets::packet_error;
use crate::text::{decimal, field_text, push_decimal, push_str, string_from_chars};
use crate::wire::{raw_error, RawMixerChannel, RawMixerDataPacket};

verus! {

/// Data type identifier for Mixer Data packets.
pub const MIXER_DATA_TYPE: u8 = 150;

/// Minimum packet size for Mixer Data.
pub const MIXER_DATA_PACKET_SIZE: usize = 270;

/// Mixer type enumeration.
#[derive(Debug, Clone, Copy, PartialEq, Eq, Default, Structural)]
pub enum MixerType {
    /// Standard mixer
    #[default]
    Standard,
    /// Extended mixer
    Extended,
}

impl MixerType {
    /// The mixer type that the wire value `v` stands for (standard unless 2).
    pub open spec fn spec_from_u8(v: u8) -> MixerType {
        if v == 2 {
            MixerType::Extended
        } else {
            MixerType::Standard
        }
    }

    /// The wire value of a mixer type.
    pub open spec fn code(self) -> u8 {
        match self {
            MixerType::Standard => 0,
            MixerType::Extended => 2,
        }
    }

    pub fn from_u8(value: u8) -> (r: Self)
        ensures
            r == Self::spec_from_u8(value),
    {
        match value {
            0 => Self::Standard,
            2 => Self::Extended,
            _ => Self::Standard,
        }
    }

    /// The wire value of this mixer type.
    pub fn as_u8(self) -> (r: u8)
        ensures
            r == self.code(),
            Self::spec_from_u8(r) == self,
    {
        match self {
            Self::Standard => 0,
            Self::Extended => 2,
        }
    }
}

/// Channel data from a mixer.
#[derive(Debug, Clone, Copy, Default)]
pub struct MixerChannel {
    /// Channel number (1-6)
    pub number: u8,
    /// Source select
    pub source_select: u8,
    /// Audio level (0-255)
    pub audio_level: u8,
    /// Fader level (0-255)
    pub fader_level: u8,
    /// Trim/gain level (0-255)
    pub trim_level: u8,
    /// Compressor level (0-255)
    pub comp_level: u8,
    /// EQ Hi level (0-255, 128 = center)
    pub eq_hi: u8,
    /// EQ Hi Mid level (0-255, 128 = center)
    pub eq_hi_mid: u8,
    /// EQ Low Mid level (0-255, 128 = center)
    pub eq_low_mid: u8,
    /// EQ Low level (0-255, 128 = center)
    pub eq_low: u8,
    /// Filter/Color knob (0-255, 128 = center)
    pub filter_color: u8,
    /// Send level to effects (0-255)
    pub send: u8,
    /// CUE A button state
    pub cue_a: u8,
    /// CUE B button state
    pub cue_b: u8,
    /// Crossfader assign (0=A, 1=THRU, 2=B typically)
    pub crossfader_assign: u8,
}

impl MixerChannel {
    /// Whether this holds channel `i` (numbered `i + 1`) of the mixer packet
    /// bytes `s`.
    pub open spec fn decodes_at(self, s: Seq<u8>, i: int) -> bool {
        &&& self.number == i + 1
        &&& self.source_select == s[125 + 24 * i + 0]
        &&& self.audio_level == s[125 + 24 * i + 1]
        &&& self.fader_level == s[125 + 24 * i + 2]
        &&& self.trim_level == s[125 + 24 * i + 3]
        &&& self.comp_level == s[125 + 24 * i + 4]
        &&& self.eq_hi == s[125 + 24 * i + 5]
        &&& self.eq_hi_mid == s[125 + 24 * i + 6]
        &&& self.eq_low_mid == s[125 + 24 * i + 7]
        &&& self.eq_low == s[125 + 24 * i + 8]
        &&& self.filter_color == s[125 + 24 * i + 9]
        &&& self.send == s[125 + 24 * i + 10]
        &&& self.cue_a == s[125 + 24 * i + 11]
        &&& self.cue_b == s[125 + 24 * i + 12]
        &&& self.crossfader_assign == s[125 + 24 * i + 13]
    }

    fn from_raw(raw: &RawMixerChannel, number: u8) -> (r: Self)
        ensures
            r.number == number,
            r.source_select == raw.source_select,
            r.audio_level == raw.audio_level,
            r.fader_level == raw.fader_level,
            r.trim_level == raw.trim_level,
            r.comp_level == raw.comp_level,
            r.eq_hi == raw.eq_hi,
            r.eq_hi_mid == raw.eq_hi_mid,
            r.eq_low_mid == raw.eq_low_mid,
            r.eq_low == raw.eq_low,
            r.filter_color == raw.filter_color,
            r.send == raw.send,
            r.cue_a == raw.cue_a,
            r.cue_b == raw.cue_b,
            r.crossfader_assign == raw.crossfader_assign,
    {
        Self {
            number,
            source_select: raw.source_select,
            audio_level: raw.audio_level,
            fader_level: raw.fader_level,
            trim_level: raw.trim_level,
            comp_level: raw.comp_level,
            eq_hi: raw.eq_hi,
            eq_hi_mid: raw.eq_hi_mid,
            eq_low_mid: raw.eq_low_mid,
            eq_low: raw.eq_low,
            filter_color: raw.filter_color,
            send: raw.send,
            cue_a: raw.cue_a,
            cue_b: raw.cue_b,
            crossfader_assign: raw.crossfader_assign,
        }
    }

    /// Check if the fader is up (above threshold).
    pub fn is_fader_up(&self, threshold: u8) -> (r: bool)
        ensures
            r == (self.fader_level > threshold),
    {
        self.fader_level > threshold
    }

    /// Check if CUE is active (either A or B).
    pub fn is_cue_active(&self) -> (r: bool)
        ensures
            r == (self.cue_a > 0 || self.cue_b > 0),
    {
        self.cue_a > 0 || self.cue_b > 0
    }
}

/// Master section data from a mixer.
#[derive(Debug, Clone, Copy, Default)]
pub struct MixerMaster {
    /// Master audio level (0-255)
    pub audio_level: u8,
    /// Master fader level (0-255)
    pub fader_level: u8,
    /// Master filter (0-255)
    pub filter: u8,
    /// Master CUE A
    pub cue_a: u8,
    /// Master CUE B
    pub cue_b: u8,
    /// Master isolator on/off
    pub isolator_on: bool,
    /// Master isolator Hi (0-255)
    pub isolator_hi: u8,
    /// Master isolator Mid (0-255)
    pub isolator_mid: u8,
    /// Master isolator Low (0-255)
    pub isolator_low: u8,
}

impl MixerMaster {
    /// Whether this holds the section that the mixer packet bytes `s` encode.
    pub open spec fn decodes(self, s: Seq<u8>) -> bool {
        &&& self.audio_level == s[61]
        &&& self.fader_level == s[62]
        &&& self.filter == s[69]
        &&& self.cue_a == s[71]
        &&& self.cue_b == s[72]
        &&& self.isolator_on == (s[74] != 0)
        &&& self.isolator_hi == s[75]
        &&& self.isolator_mid == s[76]
        &&& self.isolator_low == s[77]
    }
}

/// Effects section data from a mixer.
#[derive(Debug, Clone, Copy, Default)]
pub struct MixerEffects {
    /// Send FX effect type
    pub send_fx_effect: u8,
    /// Send FX level (0-255)
    pub send_fx_level: u8,
    /// Send FX time (0-255)
    pub send_fx_time: u8,
    /// Send FX HPF (0-255)
    pub send_fx_hpf: u8,
    /// Send FX size/feedback (0-255)
    pub send_fx_size_feedback: u8,
    /// Beat FX on/off
    pub beat_fx_on: bool,
    /// Beat FX level/depth (0-255)
    pub beat_fx_level: u8,
    /// Beat FX channel select
    pub beat_fx_channel: u8,
    /// Beat FX select
    pub beat_fx_select: u8,
    /// Beat FX frequency Hi (0-255)
    pub beat_fx_freq_hi: u8,
    /// Beat FX frequency Mid (0-255)
    pub beat_fx_freq_mid: u8,
    /// Beat FX frequency Low (0-255)
    pub beat_fx_freq_low: u8,
}

impl MixerEffects {
    /// Whether this holds the section that the mixer packet bytes `s` encode.
    pub open spec fn decodes(self, s: Seq<u8>) -> bool {
        &&& self.send_fx_effect == s[84]
        &&& self.send_fx_level == s[91]
        &&& self.send_fx_time == s[89]
        &&& self.send_fx_hpf == s[90]
        &&& self.send_fx_size_feedback == s[88]
        &&& self.beat_fx_on == (s[100] != 0)
        &&& self.beat_fx_level == s[101]
        &&& self.beat_fx_channel == s[102]
        &&& self.beat_fx_select == s[103]
        &&& self.beat_fx_freq_hi == s[104]
        &&& self.beat_fx_freq_mid == s[105]
        &&& self.beat_fx_freq_low == s[106]
    }
}

/// Filter section data from a mixer.
#[derive(Debug, Clone, Copy, Default)]
pub struct MixerFilter {
    /// High-pass filter (0-255)
    pub hpf: u8,
    /// Low-pass filter (0-255)
    pub lpf: u8,
    /// Resonance (0-255)
    pub resonance: u8,
}

impl MixerFilter {
    /// Whether this holds the section that the mixer packet bytes `s` encode.
    pub open spec fn decodes(self, s: Seq<u8>) -> bool {
        &&& self.hpf == s[79]
        &&& self.lpf == s[80]
        &&& self.resonance == s[81]
    }
}

/// Crossfader data from a mixer.
#[derive(Debug, Clone, Copy, Default)]
pub struct MixerCrossfader {
    /// Crossfader position (0-255, 0=A, 128=center, 255=B)
    pub position: u8,
    /// Crossfader curve (0-2 typically)
    pub curve: u8,
    /// Channel fader curve (0-2 typically)
    pub channel_curve: u8,
}

impl MixerCrossfader {
    /// Whether this holds the section that the mixer packet bytes `s` encode.
    pub open spec fn decodes(self, s: Seq<u8>) -> bool {
        &&& self.position == s[99]
        &&& self.curve == s[98]
        &&& self.channel_curve == s[97]
    }
}

/// Headphones/booth data from a mixer.
#[derive(Debug, Clone, Copy, Default)]
pub struct MixerMonitor {
    /// Headphones pre-EQ
    pub headphones_pre_eq: u8,
    /// Headphones A level
    pub headphones_a_level: u8,
    /// Headphones A cue/master mix
    pub headphones_a_mix: u8,
    /// Headphones B level
    pub headphones_b_level: u8,
    /// Headphones B cue/master mix
    pub headphones_b_mix: u8,
    /// Booth level
    pub booth_level: u8,
    /// Booth EQ Hi
    pub booth_eq_hi: u8,
    /// Booth EQ Low
    pub booth_eq_low: u8,
}

impl MixerMonitor {
    /// Whether this holds the section that the mixer packet bytes `s` encode.
    pub open spec fn decodes(self, s: Seq<u8>) -> bool {
        &&& self.headphones_pre_eq == s[107]
        &&& self.headphones_a_level == s[108]
        &&& self.headphones_a_mix == s[109]
        &&& self.headphones_b_level == s[110]
        &&& self.headphones_b_mix == s[111]
        &&& self.booth_level == s[112]
        &&& self.booth_eq_hi == s[113]
        &&& self.booth_eq_low == s[114]
    }
}

/// The error message for a mixer packet whose data type byte is `t`.
pub open spec fn data_type_mismatch_text(t: u8) -> Seq<char> {
    "expected data type 150, got "@ + decimal(t as nat)
}

/// The channels of `cs` whose fader is above `threshold`, in order.
pub open spec fn channels_above(cs: Seq<MixerChannel>, threshold: u8) -> Seq<MixerChannel> {
    cs.filter(|c: MixerChannel| c.fader_level > threshold)
}

/// Mixer Data Packet containing complete mixer state.
#[derive(Debug, Clone)]
pub struct MixerDataPacket {
    /// Common management header
    pub header: ManagementHeader,
    /// Mixer ID
    pub mixer_id: u8,
    /// Mixer type
    pub mixer_type: MixerType,
    /// Mixer name
    pub mixer_name: String,
    /// Master section
    pub master: MixerMaster,
    /// Effects section
    pub effects: MixerEffects,
    /// Filter section
    pub filter: MixerFilter,
    /// Crossfader section
    pub crossfader: MixerCrossfader,
    /// Monitor/headphones section
    pub monitor: MixerMonitor,
    /// Channel data (6 channels)
    pub channels: [MixerChannel; 6],
}

impl MixerDataPacket {
    /// Whether this packet holds what the bytes `s` encode.
    pub open spec fn decodes(self, s: Seq<u8>) -> bool {
        &&& self.header.decodes(s)
        &&& self.mixer_id == s[25]
        &&& self.mixer_type == MixerType::spec_from_u8(s[26])
        &&& self.mixer_name@ == field_text(s.subrange(29, 45))
        &&& self.master.decodes(s)
        &&& self.effects.decodes(s)
        &&& self.filter.decodes(s)
        &&& self.crossfader.decodes(s)
        &&& self.monitor.decodes(s)
        &&& forall|i: int| 0 <= i < 6 ==> #[trigger] self.channels[i].decodes_at(s, i)
    }

    /// Parse a mixer data packet from bytes.
    pub fn parse(data: &[u8]) -> (r: Result<Self, TcNetError>)
        ensures
            r is Ok <==> (packet_error(data@, 270) is None && data@[24] == 150),
            r matches Ok(p) ==> p.decodes(data@),
            raw_error(data@, 270) is Some ==> r == Err::<Self, TcNetError>(
                raw_error(data@, 270).unwrap(),
            ),
            raw_error(data@, 270) is None && data@[24] != 150 ==> (r matches Err(
                TcNetError::ParseError(m),
            ) && m@ == data_type_mismatch_text(data@[24])),
            raw_error(data@, 270) is None && data@[24] == 150 && r is Err ==> r == Err::<
                Self,
                TcNetError,
            >(header_error(data@).unwrap()),
    {
        if data.len() < MIXER_DATA_PACKET_SIZE {
            return Err(TcNetError::PacketTooShort { expected: MIXER_DATA_PACKET_SIZE, actual: data.len() });
        }
        let raw = match RawMixerDataPacket::read(data) {
            Ok(raw) => raw,
            Err(e) => return Err(e),
        };
        // Verify data type
        if raw.data_type != MIXER_DATA_TYPE {
            let mut msg: Vec<char> = Vec::new();
            push_str(&mut msg, "expected data type 150, got ");
            push_decimal(&mut msg, raw.data_type as u32, 0);
            return Err(TcNetError::ParseError(string_from_chars(&msg)));
        }
        let header = match ManagementHeader::from_raw(raw.header) {
            Ok(h) => h,
            Err(e) => return Err(e),
        };
        let channels = [
            MixerChannel::from_raw(&raw.channels[0], 1),
            MixerChannel::from_raw(&raw.channels[1], 2),
            MixerChannel::from_raw(&raw.channels[2], 3),
            MixerChannel::from_raw(&raw.channels[3], 4),
            MixerChannel::from_raw(&raw.channels[4], 5),
            MixerChannel::from_raw(&raw.channels[5], 6),
        ];
        assert(raw.channels[0].reads_at(data@, 125 + 24 * 0int));
        assert(raw.channels[1].reads_at(data@, 125 + 24 * 1int));
        assert(raw.channels[2].reads_at(data@, 125 + 24 * 2int));
        assert(raw.channels[3].reads_at(data@, 125 + 24 * 3int));
        assert(raw.channels[4].reads_at(data@, 125 + 24 * 4int));
        assert(raw.channels[5].reads_at(data@, 125 + 24 * 5int));
        assert(channels[0].decodes_at(data@, 0));
        Ok(Self {
            header,
            mixer_id: raw.mixer_id,
            mixer_type: MixerType::from_u8(raw.mixer_type),
            mixer_name: raw.mixer_name.to_string_lossy(),
            master: MixerMaster {
                audio_level: raw.master_audio_level,
                fader_level: raw.master_fader_level,
                filter: raw.master_filter,
                cue_a: raw.master_cue_a,
                cue_b: raw.master_cue_b,
                isolator_on: raw.master_isolator_on != 0,
                isolator_hi: raw.master_isolator_hi,
                isolator_mid: raw.master_isolator_mid,
                isolator_low: raw.master_isolator_low,
            },
            effects: MixerEffects {
                send_fx_effect: raw.send_fx_effect,
                send_fx_level: raw.send_fx_level,
                send_fx_time: raw.send_fx_time,
                send_fx_hpf: raw.send_fx_hpf,
                send_fx_size_feedback: raw.send_fx_size_feedback,
                beat_fx_on: raw.beat_fx_on != 0,
                beat_fx_level: raw.beat_fx_level,
                beat_fx_channel: raw.beat_fx_channel,
                beat_fx_select: raw.beat_fx_select,
                beat_fx_freq_hi: raw.beat_fx_freq_hi,
                beat_fx_freq_mid: raw.beat_fx_freq_mid,
                beat_fx_freq_low: raw.beat_fx_freq_low,
            },
            filter: MixerFilter {
                hpf: raw.filter_hpf,
                lpf: raw.filter_lpf,
                resonance: raw.filter_resonance,
            },
            crossfader: MixerCrossfader {
                position: raw.crossfader,
                curve: raw.crossfader_curve,
                channel_curve: raw.channel_fader_curve,
            },
            monitor: MixerMonitor {
                headphones_pre_eq: raw.headphones_pre_eq,
                headphones_a_level: raw.headphones_a_level,
                headphones_a_mix: raw.headphones_a_mix,
                headphones_b_level: raw.headphones_b_level,
                headphones_b_mix: raw.headphones_b_mix,
                booth_level: raw.booth_level,
                booth_eq_hi: raw.booth_eq_hi,
                booth_eq_low: raw.booth_eq_low,
            },
            channels,
        })
    }

    /// Get a channel by number (1-6).
    pub fn channel(&self, num: u8) -> (r: Option<&MixerChannel>)
        ensures
            (1 <= num <= 6) ==> r == Some(&self.channels[num - 1]),
            !(1 <= num <= 6) ==> r is None,
    {
        if num >= 1 && num <= 6 {
            Some(&self.channels[(num - 1) as usize])
        } else {
            None
        }
    }

    /// Get channels with faders up.
    pub fn active_channels(&self, threshold: u8) -> (r: Vec<&MixerChannel>)
        ensures
            r@.len() == channels_above(self.channels@, threshold).len(),
            forall|k: int|
                0 <= k < r@.len() ==> *r@[k] == channels_above(self.channels@, threshold)[k],
    {
        let mut out: Vec<&MixerChannel> = Vec::new();
        let mut i: usize = 0;
        while i < 6
            invariant
                i <= 6,
                out@.len() == channels_above(self.channels@.take(i as int), threshold).len(),
                forall|k: int|
                    0 <= k < out@.len() ==> *out@[k] == channels_above(
                        self.channels@.take(i as int),
                        threshold,
                    )[k],
            decreases 6 - i,
        {
            proof {
                reveal(Seq::filter);
                assert(self.channels@.take(i + 1).drop_last() =~= self.channels@.take(i as int));
            }
            if self.channels[i].is_fader_up(threshold) {
                out.push(&self.channels[i]);
            }
            i = i + 1;
        }
        assert(self.channels@.take(6) =~= self.channels@);
        out
    }
}

/// A mixer data packet decoded from bytes holds, field by field, what the
/// wire record of those bytes reads under the same name: the master,
/// effects, filter, crossfader and monitor values, and each channel's values,
/// the channels numbered 1 to 6 in order.
pub proof fn lemma_mixer_fields_by_name(p: MixerDataPacket, raw: RawMixerDataPacket, s: Seq<u8>)
    requires
        s.len() >= 270,
        raw.reads_from(s),
        p.decodes(s),
    ensures
        p.mixer_id == raw.mixer_id,
        p.mixer_type == MixerType::spec_from_u8(raw.mixer_type),
        p.mixer_name@ == field_text(raw.mixer_name.0@),
        p.master.audio_level == raw.master_audio_level,
        p.master.fader_level == raw.master_fader_level,
        p.master.filter == raw.master_filter,
        p.master.cue_a == raw.master_cue_a,
        p.master.cue_b == raw.master_cue_b,
        p.master.isolator_hi == raw.master_isolator_hi,
        p.master.isolator_mid == raw.master_isolator_mid,
        p.master.isolator_low == raw.master_isolator_low,
        p.effects.send_fx_effect == raw.send_fx_effect,
        p.effects.send_fx_level == raw.send_fx_level,
        p.effects.send_fx_time == raw.send_fx_time,
        p.effects.send_fx_hpf == raw.send_fx_hpf,
        p.effects.send_fx_size_feedback == raw.send_fx_size_feedback,
        p.effects.beat_fx_level == raw.beat_fx_level,
        p.effects.beat_fx_channel == raw.beat_fx_channel,
        p.effects.beat_fx_select == raw.beat_fx_select,
        p.effects.beat_fx_freq_hi == raw.beat_fx_freq_hi,
        p.effects.beat_fx_freq_mid == raw.beat_fx_freq_mid,
        p.effects.beat_fx_freq_low == raw.beat_fx_freq_low,
        p.filter.hpf == raw.filter_hpf,
        p.filter.lpf == raw.filter_lpf,
        p.filter.resonance == raw.filter_resonance,
        p.crossfader.position == raw.crossfader,
        p.crossfader.curve == raw.crossfader_curve,
        p.crossfader.channel_curve == raw.channel_fader_curve,
        p.monitor.headphones_pre_eq == raw.headphones_pre_eq,
        p.monitor.headphones_a_level == raw.headphones_a_level,
        p.monitor.headphones_a_mix == raw.headphones_a_mix,
        p.monitor.headphones_b_level == raw.headphones_b_level,
        p.monitor.headphones_b_mix == raw.headphones_b_mix,
        p.monitor.booth_level == raw.booth_level,
        p.monitor.booth_eq_hi == raw.booth_eq_hi,
        p.monitor.booth_eq_low == raw.booth_eq_low,
        p.master.isolator_on == (raw.master_isolator_on != 0),
        p.effects.beat_fx_on == (raw.beat_fx_on != 0),
        forall|i: int|
            0 <= i < 6 ==> {
                &&& #[trigger] p.channels[i].number == i + 1
                &&& p.channels[i].source_select == raw.channels[i].source_select
                &&& p.channels[i].audio_level == raw.channels[i].audio_level
                &&& p.channels[i].fader_level == raw.channels[i].fader_level
                &&& p.channels[i].trim_level == raw.channels[i].trim_level
                &&& p.channels[i].comp_level == raw.channels[i].comp_level
                &&& p.channels[i].eq_hi == raw.channels[i].eq_hi
                &&& p.channels[i].eq_hi_mid == raw.channels[i].eq_hi_mid
                &&& p.channels[i].eq_low_mid == raw.channels[i].eq_low_mid
                &&& p.channels[i].eq_low == raw.channels[i].eq_low
                &&& p.channels[i].filter_color == raw.channels[i].filter_color
                &&& p.channels[i].send == raw.channels[i].send
                &&& p.channels[i].cue_a == raw.channels[i].cue_a
                &&& p.channels[i].cue_b == raw.channels[i].cue_b
                &&& p.channels[i].crossfader_assign == raw.channels[i].crossfader_assign
            },
{
    crate::header::lemma_header_fields_by_name(p.header, raw.header, s);
    assert(p.mixer_name@ == field_text(raw.mixer_name.0@)) by {
        assert(raw.mixer_name.0@ =~= s.subrange(29, 45));
    }
    assert forall|i: int| 0 <= i < 6 implies {
        &&& #[trigger] p.channels[i].number == i + 1
        &&& p.channels[i].source_select == raw.channels[i].source_select
        &&& p.channels[i].audio_level == raw.channels[i].audio_level
        &&& p.channels[i].fader_level == raw.channels[i].fader_level
        &&& p.channels[i].trim_level == raw.channels[i].trim_level
        &&& p.channels[i].comp_level == raw.channels[i].comp_level
        &&& p.channels[i].eq_hi == raw.channels[i].eq_hi
        &&& p.channels[i].eq_hi_mid == raw.channels[i].eq_hi_mid
        &&& p.channels[i].eq_low_mid == raw.channels[i].eq_low_mid
        &&& p.channels[i].eq_low == raw.channels[i].eq_low
        &&& p.channels[i].filter_color == raw.channels[i].filter_color
        &&& p.channels[i].send == raw.channels[i].send
        &&& p.channels[i].cue_a == raw.channels[i].cue_a
        &&& p.channels[i].cue_b == raw.channels[i].cue_b
        &&& p.channels[i].crossfader_assign == raw.channels[i].crossfader_assign
    } by {
        assert(raw.channels[i].reads_at(s, 125 + 24 * i));
        assert(p.channels[i].decodes_at(s, i));
    }
}

} // verus!
