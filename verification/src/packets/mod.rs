//! TCNet packet types.
//!
//! This module contains parsers and builders for various TCNet packet types.
use vstd::prelude::*;
use crate::error::TcNetError;
use crate::header::{header_error, ManagementHeader};
use crate::types::{MessageType, MANAGEMENT_HEADER_SIZE};

pub mod app_data;
pub mod error;
pub mod metadata;
pub mod metrics;
pub mod mixer;
pub mod opt_in;
pub mod request;
pub mod status;
pub mod time;

pub use app_data::{AppDataPacket, RESOLUME_SIGNATURE};
pub use error::{ErrorCode, ErrorNotificationPacket, ERROR_NOTIFICATION_PACKET_SIZE};
pub use metadata::{MetadataPacket, TrackKey, METADATA_DATA_TYPE, METADATA_PACKET_SIZE};
pub use metrics::{MetricsDataPacket, METRICS_DATA_PACKET_SIZE, METRICS_DATA_TYPE};
pub use mixer::{
    MixerChannel, MixerCrossfader, MixerDataPacket, MixerEffects, MixerFilter, MixerMaster,
    MixerMonitor, MixerType, MIXER_DATA_PACKET_SIZE, MIXER_DATA_TYPE,
};
pub use opt_in::{OptInBuilder, OptInPacket};
pub use request::{RequestDataType, RequestPacket, REQUEST_PACKET_SIZE};
pub use status::{LayerStatus, StatusPacket};
pub use time::{LayerTimeData, TimePacket};

verus! {

/// The error that parsing a packet of at least `size` bytes from `s` gives,
/// if any: too few bytes, or a management header that does not decode.
pub open spec fn packet_error(s: Seq<u8>, size: nat) -> Option<TcNetError> {
    if s.len() < size {
        Some(TcNetError::PacketTooShort { expected: size as usize, actual: s.len() as usize })
    } else {
        header_error(s)
    }
}

/// The size that a packet of message type `mt` and data type byte `dt` must
/// have before it is parsed further, or none where the header alone is read.
pub open spec fn required_size(mt: MessageType, s: Seq<u8>) -> Option<nat> {
    match mt {
        MessageType::OptIn => Some(68),
        MessageType::Status => Some(300),
        MessageType::Time => Some(154),
        MessageType::ErrorNotification => Some(30),
        MessageType::Data => if s.len() < 25 {
            None
        } else if s[24] == 2 {
            Some(122)
        } else if s[24] == 4 {
            Some(548)
        } else if s[24] == 150 {
            Some(270)
        } else {
            None
        },
        _ => None,
    }
}

/// The message type that the header of `s` announces.
pub open spec fn message_type_of(s: Seq<u8>) -> MessageType {
    MessageType::spec_from_u8(s[7]).unwrap()
}

/// The error that parsing a packet from `s` gives, if any.
pub open spec fn parse_error(s: Seq<u8>) -> Option<TcNetError> {
    if header_error(s) is Some {
        header_error(s)
    } else {
        match required_size(message_type_of(s), s) {
            Some(size) => if s.len() < size {
                Some(TcNetError::PacketTooShort { expected: size as usize, actual: s.len() as usize })
            } else {
                None
            },
            None => None,
        }
    }
}

/// Whether the data packet `s` carries data type `dt`.
pub open spec fn is_data_of_type(s: Seq<u8>, dt: u8) -> bool {
    message_type_of(s) == MessageType::Data && s.len() >= 25 && s[24] == dt
}

/// A parsed TCNet packet.
#[derive(Debug, Clone)]
pub enum Packet {
    /// Opt-IN packet for network participation
    OptIn(OptInPacket),
    /// Opt-OUT packet for leaving network
    OptOut(ManagementHeader),
    /// Status packet with layer configuration
    Status(StatusPacket),
    /// Time packet with layer timing data
    Time(TimePacket),
    /// Error/notification packet (response to failed requests)
    ErrorNotification(ErrorNotificationPacket),
    /// Metrics data packet with playback info
    MetricsData(MetricsDataPacket),
    /// Metadata packet with track info
    Metadata(MetadataPacket),
    /// Mixer data packet with mixer state
    MixerData(MixerDataPacket),
    /// Unknown or unsupported packet type (header only)
    Unknown(ManagementHeader),
}

impl Packet {
    /// Whether the bytes `s` hold a packet that is passed on with its header
    /// only.
    pub open spec fn is_unknown_kind(s: Seq<u8>) -> bool {
        let mt = message_type_of(s);
        &&& mt != MessageType::OptIn
        &&& mt != MessageType::OptOut
        &&& mt != MessageType::Status
        &&& mt != MessageType::Time
        &&& mt != MessageType::ErrorNotification
        &&& !is_data_of_type(s, 2)
        &&& !is_data_of_type(s, 4)
        &&& !is_data_of_type(s, 150)
    }

    /// Whether this packet is what the bytes `s` encode.
    pub open spec fn decodes(self, s: Seq<u8>) -> bool {
        let mt = message_type_of(s);
        match self {
            Packet::OptIn(p) => mt == MessageType::OptIn && p.decodes(s),
            Packet::OptOut(h) => mt == MessageType::OptOut && h.decodes(s),
            Packet::Status(p) => mt == MessageType::Status && p.decodes(s),
            Packet::Time(p) => mt == MessageType::Time && p.decodes(s),
            Packet::ErrorNotification(p) => mt == MessageType::ErrorNotification && p.decodes(s),
            Packet::MetricsData(p) => is_data_of_type(s, 2) && p.decodes(s),
            Packet::Metadata(p) => is_data_of_type(s, 4) && p.decodes(s),
            Packet::MixerData(p) => is_data_of_type(s, 150) && p.decodes(s),
            Packet::Unknown(h) => Self::is_unknown_kind(s) && h.decodes(s),
        }
    }

    /// The management header of a packet.
    pub open spec fn spec_header(self) -> ManagementHeader {
        match self {
            Packet::OptIn(p) => p.header,
            Packet::OptOut(h) => h,
            Packet::Status(p) => p.header,
            Packet::Time(p) => p.header,
            Packet::ErrorNotification(p) => p.header,
            Packet::MetricsData(p) => p.header,
            Packet::Metadata(p) => p.header,
            Packet::MixerData(p) => p.header,
            Packet::Unknown(h) => h,
        }
    }

    /// Parse a packet from raw bytes.
    pub fn parse(data: &[u8]) -> (r: Result<Self, TcNetError>)
        ensures
            r is Ok <==> parse_error(data@) is None,
            r matches Ok(p) ==> p.decodes(data@),
            r matches Err(e) ==> parse_error(data@) == Some(e),
    {
        if data.len() < MANAGEMENT_HEADER_SIZE {
            return Err(TcNetError::PacketTooShort {
                expected: MANAGEMENT_HEADER_SIZE,
                actual: data.len(),
            });
        }
        let header = match ManagementHeader::parse(data) {
            Ok(h) => h,
            Err(e) => return Err(e),
        };
        match header.message_type {
            MessageType::OptIn => match OptInPacket::parse(data) {
                Ok(p) => Ok(Packet::OptIn(p)),
                Err(e) => Err(e),
            },
            MessageType::OptOut => Ok(Packet::OptOut(header)),
            MessageType::Status => match StatusPacket::parse(data) {
                Ok(p) => Ok(Packet::Status(p)),
                Err(e) => Err(e),
            },
            MessageType::Time => match TimePacket::parse(data) {
                Ok(p) => Ok(Packet::Time(p)),
                Err(e) => Err(e),
            },
            MessageType::ErrorNotification => match ErrorNotificationPacket::parse(data) {
                Ok(p) => Ok(Packet::ErrorNotification(p)),
                Err(e) => Err(e),
            },
            MessageType::Data => Self::parse_data_packet(data, header),
            _ => Ok(Packet::Unknown(header)),
        }
    }

    /// Parse a Data packet (type 200) based on its DataType field.
    fn parse_data_packet(data: &[u8], header: ManagementHeader) -> (r: Result<Self, TcNetError>)
        requires
            header_error(data@) is None,
            header.decodes(data@),
            header.message_type == MessageType::Data,
        ensures
            r is Ok <==> parse_error(data@) is None,
            r matches Ok(p) ==> p.decodes(data@),
            r matches Err(e) ==> parse_error(data@) == Some(e),
    {
        // DataType is at byte 24
        if data.len() < 25 {
            return Ok(Packet::Unknown(header));
        }
        let data_type = data[24];
        if data_type == METRICS_DATA_TYPE {
            match MetricsDataPacket::parse(data) {
                Ok(p) => Ok(Packet::MetricsData(p)),
                Err(e) => Err(e),
            }
        } else if data_type == METADATA_DATA_TYPE {
            match MetadataPacket::parse(data) {
                Ok(p) => Ok(Packet::Metadata(p)),
                Err(e) => Err(e),
            }
        } else if data_type == MIXER_DATA_TYPE {
            match MixerDataPacket::parse(data) {
                Ok(p) => Ok(Packet::MixerData(p)),
                Err(e) => Err(e),
            }
        } else {
            Ok(Packet::Unknown(header))
        }
    }

    /// Get the header of this packet.
    pub fn header(&self) -> (r: &ManagementHeader)
        ensures
            *r == self.spec_header(),
    {
        match self {
            Packet::OptIn(p) => &p.header,
            Packet::OptOut(h) => h,
            Packet::Status(p) => &p.header,
            Packet::Time(p) => &p.header,
            Packet::ErrorNotification(p) => &p.header,
            Packet::MetricsData(p) => &p.header,
            Packet::Metadata(p) => &p.header,
            Packet::MixerData(p) => &p.header,
            Packet::Unknown(h) => h,
        }
    }
}

/// The bytes of an Opt-IN packet parse back to that packet: parsing them
/// gives no error, and the one packet that they decode to is that Opt-IN
/// packet.
pub proof fn lemma_opt_in_packet_roundtrip(p: OptInPacket, q: Packet)
    requires
        p.header.message_type == MessageType::OptIn,
    ensures
        parse_error(p.spec_bytes()) is None,
        Packet::OptIn(p).decodes(p.spec_bytes()),
        q.decodes(p.spec_bytes()) ==> q == Packet::OptIn(p),
{
    lemma_opt_in_bytes_parse(p);
    if q.decodes(p.spec_bytes()) {
        lemma_decodes_opt_in_kind(p.spec_bytes(), q);
        opt_in::lemma_opt_in_roundtrip(p, q->OptIn_0);
    }
}

/// The bytes of an Opt-IN packet announce an Opt-IN, parse without error and
/// decode to that packet.
proof fn lemma_opt_in_bytes_parse(p: OptInPacket)
    requires
        p.header.message_type == MessageType::OptIn,
    ensures
        message_type_of(p.spec_bytes()) == MessageType::OptIn,
        parse_error(p.spec_bytes()) is None,
        Packet::OptIn(p).decodes(p.spec_bytes()),
{
    let s = p.spec_bytes();
    assert(s.len() == 68 && s[7] == MessageType::OptIn.code()) by {
        assert(s[7] == p.header.spec_bytes()[7]);
    }
    assert(packet_error(s, 68) is None && p.decodes(s)) by {
        opt_in::lemma_opt_in_decodes_bytes(p);
        opt_in::lemma_opt_in_roundtrip(p, p);
    }
    crate::types::lemma_message_type_roundtrip(MessageType::OptIn);
}

/// A packet decoded from bytes whose header announces an Opt-IN is an Opt-IN
/// packet.
proof fn lemma_decodes_opt_in_kind(s: Seq<u8>, q: Packet)
    requires
        message_type_of(s) == MessageType::OptIn,
        q.decodes(s),
    ensures
        q is OptIn,
{
    match q {
        Packet::OptIn(_) => {},
        Packet::Unknown(_) => {
            assert(!Packet::is_unknown_kind(s));
        },
        _ => {},
    }
}

} // verus!
