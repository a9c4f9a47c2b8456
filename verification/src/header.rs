//! The 24-byte management header that every TCNet packet starts with.
use vstd::prelude::*;
use vstd::string::StringSliceAdditionalSpecFns;
use vstd::utf8::{decode_utf8, encode_utf8, is_ascii_chars, is_ascii_chars_encode_utf8, valid_utf8};
use crate::bytes::{le16, le32, u16_at, u32_at};
use crate::error::TcNetError;
use crate::text::{
    decimal, decode_utf8_lossy, is_white_space, push_decimal, string_from_chars,
    trim_end_chars, trim_end_ws, utf8_text,
};
use crate::types::{
    MessageType, NodeOptions, NodeType, MANAGEMENT_HEADER_SIZE, PROTOCOL_VERSION_MAJOR,
    PROTOCOL_VERSION_MINOR,
};
use crate::wire::{has_signature, RawManagementHeader};

verus! {

/// The 8-byte node-name field for a name whose UTF-8 bytes are `b`: the first
/// eight bytes, padded with spaces.
pub open spec fn name_field(b: Seq<u8>) -> Seq<u8> {
    Seq::new(8, |i: int| if i < b.len() { b[i] } else { 32u8 })
}

/// The error that reading a management header from `s` gives, if any.
pub open spec fn header_error(s: Seq<u8>) -> Option<TcNetError> {
    if s.len() < 24 {
        Some(TcNetError::PacketTooShort { expected: 24, actual: s.len() as usize })
    } else if !has_signature(s) {
        Some(TcNetError::InvalidHeader([s[4], s[5], s[6]]))
    } else if MessageType::spec_from_u8(s[7]) is None {
        Some(TcNetError::UnknownMessageType(s[7]))
    } else if NodeType::spec_from_u8(s[17]) is None {
        Some(TcNetError::UnknownNodeType(s[17]))
    } else {
        None
    }
}

/// The management header present in all TCNet packets.
#[derive(Debug, Clone, Copy)]
pub struct ManagementHeader {
    /// Unique node ID (for multiple apps on same IP)
    pub node_id: u16,
    /// Protocol version major
    pub version_major: u8,
    /// Protocol version minor
    pub version_minor: u8,
    /// Message type
    pub message_type: MessageType,
    /// Node name (8 ASCII characters)
    pub node_name: [u8; 8],
    /// Sequence number (0-255, wraps)
    pub sequence: u8,
    /// Node type
    pub node_type: NodeType,
    /// Node options flags
    pub node_options: NodeOptions,
    /// Timestamp in microseconds (0-999999)
    pub timestamp_us: u32,
}

impl ManagementHeader {
    /// Whether this header holds what the first 24 bytes of `s` encode.
    pub open spec fn decodes(self, s: Seq<u8>) -> bool {
        &&& self.node_id == u16_at(s, 0)
        &&& self.version_major == s[2]
        &&& self.version_minor == s[3]
        &&& MessageType::spec_from_u8(s[7]) == Some(self.message_type)
        &&& self.node_name@ == s.subrange(8, 16)
        &&& self.sequence == s[16]
        &&& NodeType::spec_from_u8(s[17]) == Some(self.node_type)
        &&& self.node_options.0 == u16_at(s, 18)
        &&& self.timestamp_us == u32_at(s, 20)
    }

    /// The 24 bytes that encode this header.
    pub open spec fn spec_bytes(self) -> Seq<u8> {
        le16(self.node_id) + seq![
            self.version_major,
            self.version_minor,
            84u8,
            67u8,
            78u8,
            self.message_type.code(),
        ] + self.node_name@ + seq![self.sequence, self.node_type.code()] + le16(
            self.node_options.0,
        ) + le32(self.timestamp_us)
    }

    /// The node name as text: decoded leniently as UTF-8, trailing white space
    /// removed.
    pub open spec fn name_text(self) -> Seq<char> {
        trim_end_ws(utf8_text(self.node_name@))
    }

    /// The protocol version as text, `major.minor`.
    pub open spec fn version_text(self) -> Seq<char> {
        decimal(self.version_major as nat) + "."@ + decimal(self.version_minor as nat)
    }

    /// Create a new management header with the given parameters.
    pub fn new(
        node_id: u16,
        message_type: MessageType,
        node_name: &str,
        sequence: u8,
        node_type: NodeType,
        node_options: NodeOptions,
        timestamp_us: u32,
    ) -> (r: Self)
        ensures
            r.node_id == node_id,
            r.version_major == PROTOCOL_VERSION_MAJOR,
            r.version_minor == PROTOCOL_VERSION_MINOR,
            r.message_type == message_type,
            r.node_name@ == name_field(node_name.spec_bytes()),
            r.sequence == sequence,
            r.node_type == node_type,
            r.node_options == node_options,
            r.timestamp_us == timestamp_us,
    {
        let name_slice = node_name.as_bytes();
        let mut name_bytes = [32u8; 8];
        let mut i: usize = 0;
        while i < 8 && i < name_slice.len()
            invariant
                i <= 8,
                i <= name_slice@.len(),
                forall|j: int| 0 <= j < i ==> name_bytes[j] == name_slice@[j],
                forall|j: int| i <= j < 8 ==> name_bytes[j] == 32u8,
            decreases 8 - i,
        {
            name_bytes[i] = name_slice[i];
            i = i + 1;
        }
        assert(name_bytes@ =~= name_field(name_slice@));
        Self {
            node_id,
            version_major: PROTOCOL_VERSION_MAJOR,
            version_minor: PROTOCOL_VERSION_MINOR,
            message_type,
            node_name: name_bytes,
            sequence,
            node_type,
            node_options,
            timestamp_us,
        }
    }

    /// Parse a management header from bytes.
    pub fn parse(data: &[u8]) -> (r: Result<Self, TcNetError>)
        ensures
            r is Ok <==> header_error(data@) is None,
            r matches Ok(h) ==> h.decodes(data@),
            r matches Err(e) ==> header_error(data@) == Some(e),
    {
        if data.len() < MANAGEMENT_HEADER_SIZE {
            return Err(TcNetError::PacketTooShort {
                expected: MANAGEMENT_HEADER_SIZE,
                actual: data.len(),
            });
        }
        let raw = match RawManagementHeader::read(data) {
            Ok(raw) => raw,
            Err(e) => return Err(e),
        };
        Self::from_raw(raw)
    }

    /// Convert from raw wire format to high-level type.
    pub fn from_raw(raw: RawManagementHeader) -> (r: Result<Self, TcNetError>)
        ensures
            r is Ok <==> (MessageType::spec_from_u8(raw.message_type) is Some
                && NodeType::spec_from_u8(raw.node_type) is Some),
            MessageType::spec_from_u8(raw.message_type) is None ==> r == Err::<Self, TcNetError>(
                TcNetError::UnknownMessageType(raw.message_type),
            ),
            MessageType::spec_from_u8(raw.message_type) is Some && NodeType::spec_from_u8(
                raw.node_type,
            ) is None ==> r == Err::<Self, TcNetError>(
                TcNetError::UnknownNodeType(raw.node_type),
            ),
            r matches Ok(h) ==> {
                &&& h.node_id == raw.node_id
                &&& h.version_major == raw.version_major
                &&& h.version_minor == raw.version_minor
                &&& MessageType::spec_from_u8(raw.message_type) == Some(h.message_type)
                &&& h.node_name == raw.node_name.0
                &&& h.sequence == raw.sequence
                &&& NodeType::spec_from_u8(raw.node_type) == Some(h.node_type)
                &&& h.node_options.0 == raw.node_options
                &&& h.timestamp_us == raw.timestamp_us
            },
    {
        let message_type = match MessageType::from_u8(raw.message_type) {
            Some(t) => t,
            None => return Err(TcNetError::UnknownMessageType(raw.message_type)),
        };
        let node_type = match NodeType::from_u8(raw.node_type) {
            Some(t) => t,
            None => return Err(TcNetError::UnknownNodeType(raw.node_type)),
        };
        Ok(Self {
            node_id: raw.node_id,
            version_major: raw.version_major,
            version_minor: raw.version_minor,
            message_type,
            node_name: *raw.node_name.as_bytes(),
            sequence: raw.sequence,
            node_type,
            node_options: NodeOptions(raw.node_options),
            timestamp_us: raw.timestamp_us,
        })
    }

    /// Serialize the header to bytes.
    pub fn to_bytes(&self) -> (r: [u8; MANAGEMENT_HEADER_SIZE])
        ensures
            r@ == self.spec_bytes(),
    {
        let n = &self.node_name;
        let r = [
            (self.node_id % 256) as u8,
            (self.node_id / 256) as u8,
            self.version_major,
            self.version_minor,
            84u8,
            67u8,
            78u8,
            self.message_type.as_u8(),
            n[0],
            n[1],
            n[2],
            n[3],
            n[4],
            n[5],
            n[6],
            n[7],
            self.sequence,
            self.node_type.as_u8(),
            (self.node_options.0 % 256) as u8,
            (self.node_options.0 / 256) as u8,
            (self.timestamp_us % 256) as u8,
            ((self.timestamp_us / 256) % 256) as u8,
            ((self.timestamp_us / 65536) % 256) as u8,
            (self.timestamp_us / 16777216) as u8,
        ];
        assert(r@ =~= self.spec_bytes());
        r
    }

    /// Get the node name as a string.
    pub fn node_name_str(&self) -> (r: String)
        ensures
            r@ == self.name_text(),
    {
        let decoded = decode_utf8_lossy(self.node_name.as_slice());
        let trimmed = trim_end_chars(&decoded);
        string_from_chars(&trimmed)
    }

    /// Get the protocol version as a string.
    pub fn version_string(&self) -> (r: String)
        ensures
            r@ == self.version_text(),
    {
        let mut out: Vec<char> = Vec::new();
        push_decimal(&mut out, self.version_major as u32, 0);
        out.push('.');
        push_decimal(&mut out, self.version_minor as u32, 0);
        proof {
            reveal_strlit(".");
        }
        assert(out@ =~= self.version_text());
        string_from_chars(&out)
    }
}

/// Reading back the bytes of a header gives that header: the bytes carry no
/// header error, and any header they decode to is that header.
pub proof fn lemma_header_roundtrip(h: ManagementHeader, h2: ManagementHeader)
    requires
        h2.decodes(h.spec_bytes()),
    ensures
        header_error(h.spec_bytes()) is None,
        h2 == h,
{
    let s = h.spec_bytes();
    assert(s.len() == 24);
    assert(s[7] == h.message_type.code());
    assert(s[17] == h.node_type.code());
    crate::types::lemma_message_type_roundtrip(h.message_type);
    crate::types::lemma_node_type_roundtrip(h.node_type);
    crate::bytes::lemma_le16_roundtrip(h.node_id, s, 0);
    crate::bytes::lemma_le16_roundtrip(h.node_options.0, s, 18);
    crate::bytes::lemma_le32_roundtrip(h.timestamp_us, s, 20);
    assert(h2.node_name@ =~= h.node_name@);
    assert(h2.node_name =~= h.node_name);
}

/// The bytes of a header decode to that header, without a header error.
pub proof fn lemma_header_decodes_bytes(h: ManagementHeader)
    ensures
        header_error(h.spec_bytes()) is None,
        h.decodes(h.spec_bytes()),
{
    let s = h.spec_bytes();
    assert(s.len() == 24);
    assert(s[7] == h.message_type.code());
    assert(s[17] == h.node_type.code());
    crate::types::lemma_message_type_roundtrip(h.message_type);
    crate::types::lemma_node_type_roundtrip(h.node_type);
    crate::bytes::lemma_le16_roundtrip(h.node_id, s, 0);
    crate::bytes::lemma_le16_roundtrip(h.node_options.0, s, 18);
    crate::bytes::lemma_le32_roundtrip(h.timestamp_us, s, 20);
    assert(s.subrange(8, 16) =~= h.node_name@);
}

/// A header decoded from bytes holds, field by field, what the wire record
/// of those bytes reads under the same name; the message and node types are
/// the ones that the record's wire values stand for.
pub proof fn lemma_header_fields_by_name(h: ManagementHeader, raw: RawManagementHeader, s: Seq<u8>)
    requires
        s.len() >= 24,
        raw.reads_from(s),
        h.decodes(s),
    ensures
        h.node_id == raw.node_id,
        h.version_major == raw.version_major,
        h.version_minor == raw.version_minor,
        MessageType::spec_from_u8(raw.message_type) == Some(h.message_type),
        h.node_name == raw.node_name.0,
        h.sequence == raw.sequence,
        NodeType::spec_from_u8(raw.node_type) == Some(h.node_type),
        h.node_options.0 == raw.node_options,
        h.timestamp_us == raw.timestamp_us,
{
    assert(h.node_name@ =~= raw.node_name.0@);
    assert(h.node_name =~= raw.node_name.0);
}

/// Decoding a header looks at the first 24 bytes only.
pub proof fn lemma_header_prefix(h: ManagementHeader, s: Seq<u8>, t: Seq<u8>)
    requires
        s.len() >= 24,
        t.len() >= 24,
        forall|i: int| 0 <= i < 24 ==> s[i] == t[i],
    ensures
        h.decodes(s) == h.decodes(t),
        header_error(s) == header_error(t),
{
    assert(s.subrange(8, 16) =~= t.subrange(8, 16));
}

/// `n` followed by `k` spaces.
pub open spec fn space_padded(n: Seq<char>, k: nat) -> Seq<char> {
    n + Seq::new(k, |i: int| ' ')
}

/// Trailing spaces after text that does not end in white space are trimmed
/// away, and nothing else is.
proof fn lemma_trim_padding(n: Seq<char>, k: nat)
    requires
        n.len() == 0 || !is_white_space(n.last()),
    ensures
        trim_end_ws(space_padded(n, k)) == n,
    decreases k,
{
    if k == 0 {
        assert(space_padded(n, 0) =~= n);
    } else {
        let s = space_padded(n, k);
        assert(s.last() == ' ');
        assert(s.drop_last() =~= space_padded(n, (k - 1) as nat));
        lemma_trim_padding(n, (k - 1) as nat);
    }
}

/// A node name of at most eight ASCII characters that does not end in white
/// space is given back by the header that stores it: its name field is valid
/// UTF-8, and the header's name text is the name.
pub proof fn lemma_node_name_roundtrip(name: Seq<char>, h: ManagementHeader)
    requires
        name.len() <= 8,
        is_ascii_chars(name),
        name.len() == 0 || !is_white_space(name.last()),
        h.node_name@ == name_field(encode_utf8(name)),
    ensures
        valid_utf8(h.node_name@),
        h.name_text() == name,
{
    let padded = space_padded(name, (8 - name.len()) as nat);
    assert(is_ascii_chars(padded)) by {
        assert forall|i: int| 0 <= i < padded.len() implies '\0' <= #[trigger] padded[i] <= '\u{7f}' by {
            if i < name.len() {
                assert(padded[i] == name[i]);
            }
        }
    }
    is_ascii_chars_encode_utf8(name);
    is_ascii_chars_encode_utf8(padded);
    assert(((' ' as u32) as u8) == 32u8);
    assert(encode_utf8(padded) =~= h.node_name@) by {
        assert forall|i: int| 0 <= i < 8 implies encode_utf8(padded)[i] == h.node_name@[i] by {
            assert(padded[i] as u8 == encode_utf8(padded)[i]);
            if i < name.len() {
                assert(name[i] as u8 == encode_utf8(name)[i]);
            }
        }
    }
    vstd::utf8::encode_utf8_valid_utf8(padded);
    vstd::utf8::encode_utf8_decode_utf8(padded);
    lemma_trim_padding(name, (8 - name.len()) as nat);
}

} // verus!
