//! Error/Notification Packet (Message Type 13).
//!
//! Sent in response to requests that failed or couldn't be handled.
use vstd::prelude::*;
use crate::bytes::u16_at;
use crate::error::TcNetError;
use crate::header::ManagementHeader;
use crate::packets::packet_error;
use crate::text::{decimal, push_decimal, push_str, string_from_chars};
use crate::types::Layer;
use crate::wire::RawErrorNotificationPacket;

verus! {

/// Packet size for Error/Notification packets.
pub const ERROR_NOTIFICATION_PACKET_SIZE: usize = 30;

/// Error/notification codes returned by TCNet nodes.
#[derive(Debug, Clone, Copy, PartialEq, Eq, Structural)]
pub enum ErrorCode {
    /// Request was not recognized
    RequestUnknown,
    /// Request was recognized but cannot be handled by the node
    RequestNotPossible,
    /// Request was for data that is empty (nothing to send)
    RequestDataEmpty,
    /// Request was handled successfully (OK response)
    RequestOk,
    /// Unknown error code
    Unknown(u16),
}

impl ErrorCode {
    /// The code that the wire value `v` stands for.
    pub open spec fn spec_from_u16(v: u16) -> ErrorCode {
        if v == 1 {
            ErrorCode::RequestUnknown
        } else if v == 13 {
            ErrorCode::RequestNotPossible
        } else if v == 14 {
            ErrorCode::RequestDataEmpty
        } else if v == 255 {
            ErrorCode::RequestOk
        } else {
            ErrorCode::Unknown(v)
        }
    }

    /// The wire value of a code.
    pub open spec fn code(self) -> u16 {
        match self {
            ErrorCode::RequestUnknown => 1,
            ErrorCode::RequestNotPossible => 13,
            ErrorCode::RequestDataEmpty => 14,
            ErrorCode::RequestOk => 255,
            ErrorCode::Unknown(v) => v,
        }
    }

    /// The display text of a code.
    pub open spec fn text(self) -> Seq<char> {
        match self {
            ErrorCode::RequestUnknown => "Request Unknown"@,
            ErrorCode::RequestNotPossible => "Request Not Possible"@,
            ErrorCode::RequestDataEmpty => "Data Empty"@,
            ErrorCode::RequestOk => "OK"@,
            ErrorCode::Unknown(v) => "Unknown("@ + decimal(v as nat) + ")"@,
        }
    }

    /// Parse an error code from the raw u16 value.
    pub fn from_u16(value: u16) -> (r: Self)
        ensures
            r == Self::spec_from_u16(value),
    {
        match value {
            1 => Self::RequestUnknown,
            13 => Self::RequestNotPossible,
            14 => Self::RequestDataEmpty,
            255 => Self::RequestOk,
            other => Self::Unknown(other),
        }
    }

    /// Get the raw u16 value.
    pub fn as_u16(&self) -> (r: u16)
        ensures
            r == self.code(),
    {
        match self {
            Self::RequestUnknown => 1,
            Self::RequestNotPossible => 13,
            Self::RequestDataEmpty => 14,
            Self::RequestOk => 255,
            Self::Unknown(v) => *v,
        }
    }

    /// Check if this is an error (not OK).
    pub fn is_error(&self) -> (r: bool)
        ensures
            r == !(self == ErrorCode::RequestOk),
    {
        !matches!(self, Self::RequestOk)
    }

    /// The display text of this code.
    pub fn to_text(&self) -> (r: String)
        ensures
            r@ == self.text(),
    {
        let mut out: Vec<char> = Vec::new();
        match self {
            Self::RequestUnknown => push_str(&mut out, "Request Unknown"),
            Self::RequestNotPossible => push_str(&mut out, "Request Not Possible"),
            Self::RequestDataEmpty => push_str(&mut out, "Data Empty"),
            Self::RequestOk => push_str(&mut out, "OK"),
            Self::Unknown(code) => {
                push_str(&mut out, "Unknown(");
                push_decimal(&mut out, *code as u32, 0);
                push_str(&mut out, ")");
            },
        }
        assert(out@ =~= self.text());
        string_from_chars(&out)
    }
}

/// The wire value of a code read back gives the same value.
pub proof fn lemma_error_code_value_roundtrip(v: u16)
    ensures
        ErrorCode::spec_from_u16(v).code() == v,
{
}

/// A code read back from its wire value is the same code, except for an
/// `Unknown` code that carries the value of a known one.
pub proof fn lemma_error_code_roundtrip(c: ErrorCode)
    requires
        !(c is Unknown && (c->0 == 1 || c->0 == 13 || c->0 == 14 || c->0 == 255)),
    ensures
        ErrorCode::spec_from_u16(c.code()) == c,
{
}

/// The name of a requested data type.
pub open spec fn data_type_name(data_type: u8) -> Seq<char> {
    if data_type == 2 {
        "Metrics"@
    } else if data_type == 4 {
        "Metadata"@
    } else if data_type == 8 {
        "BeatGrid"@
    } else if data_type == 12 {
        "CueData"@
    } else if data_type == 16 {
        "SmallWaveform"@
    } else if data_type == 32 {
        "BigWaveform"@
    } else if data_type == 150 {
        "MixerData"@
    } else {
        "Unknown"@
    }
}

/// The layer that a layer ID of a request names: none for ID 0, else the
/// layer at position ID - 1 if there is one.
pub open spec fn request_layer(layer_id: u8) -> Option<Layer> {
    if layer_id > 0 {
        Layer::spec_from_index(layer_id - 1)
    } else {
        None
    }
}

/// Error/Notification packet sent in response to failed requests.
#[derive(Debug, Clone, Copy)]
pub struct ErrorNotificationPacket {
    /// Common management header
    pub header: ManagementHeader,
    /// Data type from the original request
    pub data_type: u8,
    /// Layer from the original request (if applicable)
    pub layer: Option<Layer>,
    /// Raw layer ID (0 means not layer-specific)
    pub layer_id: u8,
    /// Error/notification code
    pub code: ErrorCode,
    /// Message type from the original request
    pub request_message_type: u16,
}

impl ErrorNotificationPacket {
    /// Whether this packet holds what the bytes `s` encode.
    pub open spec fn decodes(self, s: Seq<u8>) -> bool {
        &&& self.header.decodes(s)
        &&& self.data_type == s[24]
        &&& self.layer_id == s[25]
        &&& self.layer == request_layer(s[25])
        &&& self.code == ErrorCode::spec_from_u16(u16_at(s, 26))
        &&& self.request_message_type == u16_at(s, 28)
    }

    /// What was requested, as text.
    pub open spec fn description(self) -> Seq<char> {
        match self.layer {
            Some(l) => data_type_name(self.data_type) + " for "@ + l.spec_name(),
            None => data_type_name(self.data_type),
        }
    }

    /// The display text of this packet.
    pub open spec fn text(self) -> Seq<char> {
        "Error from "@ + self.header.name_text() + ": "@ + self.code.text() + " - "@
            + self.description() + " (request: "@ + decimal(self.request_message_type as nat)
            + ")"@
    }

    /// Parse an Error/Notification packet from raw bytes.
    pub fn parse(data: &[u8]) -> (r: Result<Self, TcNetError>)
        ensures
            r is Ok <==> packet_error(data@, 30) is None,
            r matches Ok(p) ==> p.decodes(data@),
            r matches Err(e) ==> packet_error(data@, 30) == Some(e),
    {
        if data.len() < ERROR_NOTIFICATION_PACKET_SIZE {
            return Err(TcNetError::PacketTooShort {
                expected: ERROR_NOTIFICATION_PACKET_SIZE,
                actual: data.len(),
            });
        }
        let raw = match RawErrorNotificationPacket::read(data) {
            Ok(raw) => raw,
            Err(e) => return Err(e),
        };
        let header = match ManagementHeader::from_raw(raw.header) {
            Ok(h) => h,
            Err(e) => return Err(e),
        };
        // Layer ID 0 means not layer-specific
        let layer = if raw.layer_id > 0 {
            Layer::from_index((raw.layer_id - 1) as usize)
        } else {
            None
        };
        Ok(Self {
            header,
            data_type: raw.data_type,
            layer,
            layer_id: raw.layer_id,
            code: ErrorCode::from_u16(raw.code),
            request_message_type: raw.request_message_type,
        })
    }

    /// The name of the requested data type.
    fn data_type_str(&self) -> (r: &'static str)
        ensures
            r@ == data_type_name(self.data_type),
    {
        match self.data_type {
            2 => "Metrics",
            4 => "Metadata",
            8 => "BeatGrid",
            12 => "CueData",
            16 => "SmallWaveform",
            32 => "BigWaveform",
            150 => "MixerData",
            _ => "Unknown",
        }
    }

    /// Appends what was requested, as text.
    fn push_description(&self, out: &mut Vec<char>)
        ensures
            final(out)@ == old(out)@ + self.description(),
    {
        let ghost start = out@;
        push_str(out, self.data_type_str());
        match self.layer {
            Some(layer) => {
                push_str(out, " for ");
                push_str(out, layer.name());
            },
            None => {},
        }
        assert(out@ =~= start + self.description());
    }

    /// Get a description of what was requested.
    pub fn request_description(&self) -> (r: String)
        ensures
            r@ == self.description(),
    {
        let mut out: Vec<char> = Vec::new();
        self.push_description(&mut out);
        assert(out@ =~= self.description());
        string_from_chars(&out)
    }

    /// The display text of this packet.
    pub fn to_text(&self) -> (r: String)
        ensures
            r@ == self.text(),
    {
        let mut out: Vec<char> = Vec::new();
        push_str(&mut out, "Error from ");
        let name = self.header.node_name_str();
        push_str(&mut out, name.as_str());
        push_str(&mut out, ": ");
        let code = self.code.to_text();
        push_str(&mut out, code.as_str());
        push_str(&mut out, " - ");
        self.push_description(&mut out);
        push_str(&mut out, " (request: ");
        push_decimal(&mut out, self.request_message_type as u32, 0);
        push_str(&mut out, ")");
        assert(out@ =~= self.text());
        string_from_chars(&out)
    }
}

/// An error notification decoded from bytes holds, field by field, what the
/// wire record of those bytes reads under the same name.
pub proof fn lemma_error_notification_fields_by_name(
    p: ErrorNotificationPacket,
    raw: RawErrorNotificationPacket,
    s: Seq<u8>,
)
    requires
        s.len() >= 30,
        raw.reads_from(s),
        p.decodes(s),
    ensures
        p.data_type == raw.data_type,
        p.layer_id == raw.layer_id,
        p.layer == request_layer(raw.layer_id),
        p.code == ErrorCode::spec_from_u16(raw.code),
        p.request_message_type == raw.request_message_type,
{
    crate::header::lemma_header_fields_by_name(p.header, raw.header, s);
}

/// Error codes travel as their TCNet values: 1 (request unknown), 13 (request
/// not possible), 14 (data empty) and 255 (OK) decode to their codes, any
/// other value is kept as an unknown code, and each code is written as the
/// value it is decoded from.
pub proof fn lemma_error_code_values(v: u16)
    ensures
        ErrorCode::spec_from_u16(v).code() == v,
        ErrorCode::spec_from_u16(v) is Unknown <==> !(v == 1 || v == 13 || v == 14 || v == 255),
        ErrorCode::spec_from_u16(1) == ErrorCode::RequestUnknown,
        ErrorCode::spec_from_u16(13) == ErrorCode::RequestNotPossible,
        ErrorCode::spec_from_u16(14) == ErrorCode::RequestDataEmpty,
        ErrorCode::spec_from_u16(255) == ErrorCode::RequestOk,
{
}

/// The layer ID of an error notification names the layer whose wire number it
/// is, and 0 names no layer.
pub proof fn lemma_request_layer_names_layer(l: Layer)
    ensures
        request_layer(l.code()) == Some(l),
        request_layer(0) is None,
{
}

} // verus!
