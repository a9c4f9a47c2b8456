//! Opt-IN Packet (Type 2) parsing and building.
//!
//! Opt-IN packets are used to join and maintain presence in a TCNet network.
use vstd::prelude::*;
use vstd::string::StringSliceAdditionalSpecFns;
use vstd::utf8::encode_utf8;
use crate::bytes::{le16, u16_at};
use crate::error::TcNetError;
use crate::header::{name_field, ManagementHeader};
use crate::packets::packet_error;
use crate::text::{decimal, field_string, field_text, push_decimal, string_from_chars};
use crate::types::{
    MessageType, NodeOptions, NodeType, OPT_IN_PACKET_SIZE, PORT_UNICAST_DEFAULT,
    PROTOCOL_VERSION_MAJOR, PROTOCOL_VERSION_MINOR,
};
use crate::wire::RawOptInPacket;

verus! {

/// A 16-byte text field for a text whose UTF-8 bytes are `b`: the first
/// sixteen bytes, padded with zeros.
pub open spec fn text_field16(b: Seq<u8>) -> Seq<u8> {
    Seq::new(16, |i: int| if i < b.len() { b[i] } else { 0u8 })
}

/// Copies the first sixteen bytes of `b` into a zero-padded field.
fn fill_field16(b: &[u8]) -> (r: [u8; 16])
    ensures
        r@ == text_field16(b@),
{
    let mut out = [0u8; 16];
    let mut i: usize = 0;
    while i < 16 && i < b.len()
        invariant
            i <= 16,
            i <= b@.len(),
            forall|j: int| 0 <= j < i ==> out[j] == b@[j],
            forall|j: int| i <= j < 16 ==> out[j] == 0u8,
        decreases 16 - i,
    {
        out[i] = b[i];
        i = i + 1;
    }
    assert(out@ =~= text_field16(b@));
    out
}

/// Opt-IN packet for network participation.
#[derive(Debug, Clone, Copy)]
pub struct OptInPacket {
    /// Common management header
    pub header: ManagementHeader,
    /// Number of nodes registered by this system
    pub node_count: u16,
    /// Listener port for unicast messages
    pub listener_port: u16,
    /// Uptime in seconds (rolls over every 12 hours)
    pub uptime_secs: u16,
    /// Vendor name (16 chars max)
    pub vendor_name: [u8; 16],
    /// Application/device name (16 chars max)
    pub app_name: [u8; 16],
    /// Application major version
    pub app_version_major: u8,
    /// Application minor version
    pub app_version_minor: u8,
    /// Application bug/patch version
    pub app_version_bug: u8,
}

impl OptInPacket {
    /// Whether this packet holds what the bytes `s` encode.
    pub open spec fn decodes(self, s: Seq<u8>) -> bool {
        &&& self.header.decodes(s)
        &&& self.node_count == u16_at(s, 24)
        &&& self.listener_port == u16_at(s, 26)
        &&& self.uptime_secs == u16_at(s, 28)
        &&& self.vendor_name@ == s.subrange(32, 48)
        &&& self.app_name@ == s.subrange(48, 64)
        &&& self.app_version_major == s[64]
        &&& self.app_version_minor == s[65]
        &&& self.app_version_bug == s[66]
    }

    /// The 68 bytes that encode this packet.
    pub open spec fn spec_bytes(self) -> Seq<u8> {
        self.header.spec_bytes() + le16(self.node_count) + le16(self.listener_port) + le16(
            self.uptime_secs,
        ) + seq![0u8, 0u8] + self.vendor_name@ + self.app_name@ + seq![
            self.app_version_major,
            self.app_version_minor,
            self.app_version_bug,
            0u8,
        ]
    }

    /// The application version as text, `major.minor.bug`.
    pub open spec fn version_text(self) -> Seq<char> {
        decimal(self.app_version_major as nat) + "."@ + decimal(self.app_version_minor as nat)
            + "."@ + decimal(self.app_version_bug as nat)
    }

    /// Create a new Opt-IN packet.
    pub fn new(
        node_id: u16,
        node_name: &str,
        sequence: u8,
        node_type: NodeType,
        node_options: NodeOptions,
        timestamp_us: u32,
        node_count: u16,
        listener_port: u16,
        uptime_secs: u16,
        vendor_name: &str,
        app_name: &str,
        app_version: (u8, u8, u8),
    ) -> (r: Self)
        ensures
            r.header.node_id == node_id,
            r.header.version_major == PROTOCOL_VERSION_MAJOR,
            r.header.version_minor == PROTOCOL_VERSION_MINOR,
            r.header.message_type == MessageType::OptIn,
            r.header.node_name@ == name_field(node_name.spec_bytes()),
            r.header.sequence == sequence,
            r.header.node_type == node_type,
            r.header.node_options == node_options,
            r.header.timestamp_us == timestamp_us,
            r.node_count == node_count,
            r.listener_port == listener_port,
            r.uptime_secs == uptime_secs,
            r.vendor_name@ == text_field16(vendor_name.spec_bytes()),
            r.app_name@ == text_field16(app_name.spec_bytes()),
            r.app_version_major == app_version.0,
            r.app_version_minor == app_version.1,
            r.app_version_bug == app_version.2,
    {
        let header = ManagementHeader::new(
            node_id,
            MessageType::OptIn,
            node_name,
            sequence,
            node_type,
            node_options,
            timestamp_us,
        );
        let vendor_bytes = fill_field16(vendor_name.as_bytes());
        let app_bytes = fill_field16(app_name.as_bytes());
        Self {
            header,
            node_count,
            listener_port,
            uptime_secs,
            vendor_name: vendor_bytes,
            app_name: app_bytes,
            app_version_major: app_version.0,
            app_version_minor: app_version.1,
            app_version_bug: app_version.2,
        }
    }

    /// Parse an Opt-IN packet from bytes.
    pub fn parse(data: &[u8]) -> (r: Result<Self, TcNetError>)
        ensures
            r is Ok <==> packet_error(data@, 68) is None,
            r matches Ok(p) ==> p.decodes(data@),
            r matches Err(e) ==> packet_error(data@, 68) == Some(e),
    {
        if data.len() < OPT_IN_PACKET_SIZE {
            return Err(TcNetError::PacketTooShort { expected: OPT_IN_PACKET_SIZE, actual: data.len() });
        }
        let raw = match RawOptInPacket::read(data) {
            Ok(raw) => raw,
            Err(e) => return Err(e),
        };
        let header = match ManagementHeader::from_raw(raw.header) {
            Ok(h) => h,
            Err(e) => return Err(e),
        };
        Ok(Self {
            header,
            node_count: raw.node_count,
            listener_port: raw.listener_port,
            uptime_secs: raw.uptime_secs,
            vendor_name: *raw.vendor_name.as_bytes(),
            app_name: *raw.app_name.as_bytes(),
            app_version_major: raw.app_version_major,
            app_version_minor: raw.app_version_minor,
            app_version_bug: raw.app_version_bug,
        })
    }

    /// Serialize the packet to bytes.
    pub fn to_bytes(&self) -> (r: [u8; OPT_IN_PACKET_SIZE])
        ensures
            r@ == self.spec_bytes(),
    {
        let h = self.header.to_bytes();
        let v = &self.vendor_name;
        let a = &self.app_name;
        let r = [
            h[0], h[1], h[2], h[3], h[4], h[5], h[6], h[7], h[8], h[9], h[10], h[11],
            h[12], h[13], h[14], h[15], h[16], h[17], h[18], h[19], h[20], h[21], h[22], h[23],
            (self.node_count % 256) as u8,
            (self.node_count / 256) as u8,
            (self.listener_port % 256) as u8,
            (self.listener_port / 256) as u8,
            (self.uptime_secs % 256) as u8,
            (self.uptime_secs / 256) as u8,
            0u8,
            0u8,
            v[0], v[1], v[2], v[3], v[4], v[5], v[6], v[7],
            v[8], v[9], v[10], v[11], v[12], v[13], v[14], v[15],
            a[0], a[1], a[2], a[3], a[4], a[5], a[6], a[7],
            a[8], a[9], a[10], a[11], a[12], a[13], a[14], a[15],
            self.app_version_major,
            self.app_version_minor,
            self.app_version_bug,
            0u8,
        ];
        assert(r@ =~= self.spec_bytes());
        r
    }

    /// Get the vendor name as a string.
    pub fn vendor_name_str(&self) -> (r: String)
        ensures
            r@ == field_text(self.vendor_name@),
    {
        field_string(self.vendor_name.as_slice())
    }

    /// Get the application name as a string.
    pub fn app_name_str(&self) -> (r: String)
        ensures
            r@ == field_text(self.app_name@),
    {
        field_string(self.app_name.as_slice())
    }

    /// Get the application version as a string.
    pub fn app_version_str(&self) -> (r: String)
        ensures
            r@ == self.version_text(),
    {
        let mut out: Vec<char> = Vec::new();
        push_decimal(&mut out, self.app_version_major as u32, 0);
        out.push('.');
        push_decimal(&mut out, self.app_version_minor as u32, 0);
        out.push('.');
        push_decimal(&mut out, self.app_version_bug as u32, 0);
        proof {
            reveal_strlit(".");
        }
        assert(out@ =~= self.version_text());
        string_from_chars(&out)
    }
}

/// Reading back the bytes of an Opt-IN packet gives that packet.
pub proof fn lemma_opt_in_roundtrip(p: OptInPacket, p2: OptInPacket)
    requires
        p2.decodes(p.spec_bytes()),
    ensures
        packet_error(p.spec_bytes(), 68) is None,
        p2 == p,
{
    let s = p.spec_bytes();
    assert(s.len() == 68);
    let hb = p.header.spec_bytes();
    assert forall|i: int| 0 <= i < 24 implies s[i] == hb[i] by {}
    crate::header::lemma_header_prefix(p2.header, s, hb);
    crate::header::lemma_header_roundtrip(p.header, p2.header);
    crate::bytes::lemma_le16_roundtrip(p.node_count, s, 24);
    crate::bytes::lemma_le16_roundtrip(p.listener_port, s, 26);
    crate::bytes::lemma_le16_roundtrip(p.uptime_secs, s, 28);
    assert(p2.vendor_name@ =~= p.vendor_name@);
    assert(p2.app_name@ =~= p.app_name@);
    assert(p2.vendor_name =~= p.vendor_name);
    assert(p2.app_name =~= p.app_name);
}

/// The bytes of an Opt-IN packet decode to that packet.
pub proof fn lemma_opt_in_decodes_bytes(p: OptInPacket)
    ensures
        p.decodes(p.spec_bytes()),
{
    let s = p.spec_bytes();
    assert(s.len() == 68);
    let hb = p.header.spec_bytes();
    assert forall|i: int| 0 <= i < 24 implies s[i] == hb[i] by {}
    crate::header::lemma_header_decodes_bytes(p.header);
    crate::header::lemma_header_prefix(p.header, s, hb);
    crate::bytes::lemma_le16_roundtrip(p.node_count, s, 24);
    crate::bytes::lemma_le16_roundtrip(p.listener_port, s, 26);
    crate::bytes::lemma_le16_roundtrip(p.uptime_secs, s, 28);
    assert(s.subrange(32, 48) =~= p.vendor_name@);
    assert(s.subrange(48, 64) =~= p.app_name@);
}

/// The configuration that an Opt-IN builder holds.
pub struct OptInSettings {
    pub node_id: u16,
    pub node_name: Seq<char>,
    pub node_type: NodeType,
    pub node_options: NodeOptions,
    pub listener_port: u16,
    pub vendor_name: Seq<char>,
    pub app_name: Seq<char>,
    pub app_version: (u8, u8, u8),
}

/// Builder for creating Opt-IN packets with sensible defaults.
pub struct OptInBuilder {
    node_id: u16,
    node_name: String,
    node_type: NodeType,
    node_options: NodeOptions,
    listener_port: u16,
    vendor_name: String,
    app_name: String,
    app_version: (u8, u8, u8),
}

impl View for OptInBuilder {
    type V = OptInSettings;

    closed spec fn view(&self) -> OptInSettings {
        OptInSettings {
            node_id: self.node_id,
            node_name: self.node_name@,
            node_type: self.node_type,
            node_options: self.node_options,
            listener_port: self.listener_port,
            vendor_name: self.vendor_name@,
            app_name: self.app_name@,
            app_version: self.app_version,
        }
    }
}

impl OptInBuilder {
    pub fn new(node_name: &str) -> (r: Self)
        ensures
            r@ == (OptInSettings {
                node_id: 1,
                node_name: node_name@,
                node_type: NodeType::Slave,
                node_options: NodeOptions(0),
                listener_port: PORT_UNICAST_DEFAULT,
                vendor_name: "tcnet-rust"@,
                app_name: "TCNet Listener"@,
                app_version: (PROTOCOL_VERSION_MAJOR, PROTOCOL_VERSION_MINOR, 0u8),
            }),
    {
        Self {
            node_id: 1,
            node_name: node_name.to_owned(),
            node_type: NodeType::Slave,
            node_options: NodeOptions::new(),
            listener_port: PORT_UNICAST_DEFAULT,
            vendor_name: "tcnet-rust".to_owned(),
            app_name: "TCNet Listener".to_owned(),
            app_version: (PROTOCOL_VERSION_MAJOR, PROTOCOL_VERSION_MINOR, 0),
        }
    }

    pub fn node_id(self, id: u16) -> (r: Self)
        ensures
            r@ == (OptInSettings { node_id: id, ..self@ }),
    {
        Self { node_id: id, ..self }
    }

    pub fn node_type(self, node_type: NodeType) -> (r: Self)
        ensures
            r@ == (OptInSettings { node_type, ..self@ }),
    {
        Self { node_type, ..self }
    }

    pub fn node_options(self, options: NodeOptions) -> (r: Self)
        ensures
            r@ == (OptInSettings { node_options: options, ..self@ }),
    {
        Self { node_options: options, ..self }
    }

    pub fn listener_port(self, port: u16) -> (r: Self)
        ensures
            r@ == (OptInSettings { listener_port: port, ..self@ }),
    {
        Self { listener_port: port, ..self }
    }

    pub fn vendor(self, name: &str) -> (r: Self)
        ensures
            r@ == (OptInSettings { vendor_name: name@, ..self@ }),
    {
        Self { vendor_name: name.to_owned(), ..self }
    }

    pub fn app_name(self, name: &str) -> (r: Self)
        ensures
            r@ == (OptInSettings { app_name: name@, ..self@ }),
    {
        Self { app_name: name.to_owned(), ..self }
    }

    pub fn app_version(self, major: u8, minor: u8, bug: u8) -> (r: Self)
        ensures
            r@ == (OptInSettings { app_version: (major, minor, bug), ..self@ }),
    {
        Self { app_version: (major, minor, bug), ..self }
    }

    /// Build the Opt-IN packet with the given sequence and timestamp.
    pub fn build(&self, sequence: u8, timestamp_us: u32, node_count: u16, uptime_secs: u16) -> (r:
        OptInPacket)
        ensures
            r.header.node_id == self@.node_id,
            r.header.version_major == PROTOCOL_VERSION_MAJOR,
            r.header.version_minor == PROTOCOL_VERSION_MINOR,
            r.header.message_type == MessageType::OptIn,
            r.header.node_name@ == name_field(encode_utf8(self@.node_name)),
            r.header.sequence == sequence,
            r.header.node_type == self@.node_type,
            r.header.node_options == self@.node_options,
            r.header.timestamp_us == timestamp_us,
            r.node_count == node_count,
            r.listener_port == self@.listener_port,
            r.uptime_secs == uptime_secs,
            r.vendor_name@ == text_field16(encode_utf8(self@.vendor_name)),
            r.app_name@ == text_field16(encode_utf8(self@.app_name)),
            r.app_version_major == self@.app_version.0,
            r.app_version_minor == self@.app_version.1,
            r.app_version_bug == self@.app_version.2,
    {
        OptInPacket::new(
            self.node_id,
            self.node_name.as_str(),
            sequence,
            self.node_type,
            self.node_options,
            timestamp_us,
            node_count,
            self.listener_port,
            uptime_secs,
            self.vendor_name.as_str(),
            self.app_name.as_str(),
            self.app_version,
        )
    }
}

/// An Opt-IN packet decoded from bytes holds, field by field, what the wire
/// record of those bytes reads under the same name.
pub proof fn lemma_opt_in_fields_by_name(p: OptInPacket, raw: RawOptInPacket, s: Seq<u8>)
    requires
        s.len() >= 68,
        raw.reads_from(s),
        p.decodes(s),
    ensures
        p.node_count == raw.node_count,
        p.listener_port == raw.listener_port,
        p.uptime_secs == raw.uptime_secs,
        p.vendor_name == raw.vendor_name.0,
        p.app_name == raw.app_name.0,
        p.app_version_major == raw.app_version_major,
        p.app_version_minor == raw.app_version_minor,
        p.app_version_bug == raw.app_version_bug,
{
    crate::header::lemma_header_fields_by_name(p.header, raw.header, s);
    assert(p.vendor_name =~= raw.vendor_name.0);
    assert(p.app_name =~= raw.app_name.0);
}

} // verus!
