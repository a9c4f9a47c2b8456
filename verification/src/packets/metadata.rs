//! Metadata Packet (Data Type 4).
//!
//! Contains track metadata for a layer including artist name, track title,
//! musical key, and track ID.
use vstd::prelude::*;
use crate::bytes::{u16_at, u32_at};
use crate::error::TcNetError;
use crate::header::ManagementHeader;
use crate::packets::metrics::{layer_from_id, layer_of_id};
use crate::packets::packet_error;
use crate::text::{
    decimal, decode_utf16_lossy, field_string, field_text, push_decimal, push_str,
    string_from_chars, trim_chars, trim_ws, utf16_text,
};
use crate::types::Layer;
use crate::wire::{RawManagementHeader, RawMetadataPacket};

verus! {

/// Data type identifier for Metadata packets.
pub const METADATA_DATA_TYPE: u8 = 4;

/// Minimum packet size for Metadata.
pub const METADATA_PACKET_SIZE: usize = 548;

/// Musical key representation.
#[derive(Debug, Clone, Copy, PartialEq, Eq, Default, Structural)]
pub struct TrackKey(pub u16);

impl TrackKey {
    /// The display text of a key.
    pub open spec fn text(self) -> Seq<char> {
        if self.0 == 0 {
            "Unknown"@
        } else {
            "Key("@ + decimal(self.0 as nat) + ")"@
        }
    }

    /// Create a new TrackKey from the raw protocol value.
    pub fn new(value: u16) -> (r: Self)
        ensures
            r.0 == value,
    {
        Self(value)
    }

    /// Get the raw key value.
    pub fn raw(&self) -> (r: u16)
        ensures
            r == self.0,
    {
        self.0
    }

    /// Check if the key is unknown/not set.
    pub fn is_unknown(&self) -> (r: bool)
        ensures
            r == (self.0 == 0),
    {
        self.0 == 0
    }

    /// The display text of this key.
    pub fn to_text(&self) -> (r: String)
        ensures
            r@ == self.text(),
    {
        let mut out: Vec<char> = Vec::new();
        if self.is_unknown() {
            push_str(&mut out, "Unknown");
        } else {
            push_str(&mut out, "Key(");
            push_decimal(&mut out, self.0 as u32, 0);
            push_str(&mut out, ")");
        }
        assert(out@ =~= self.text());
        string_from_chars(&out)
    }
}

/// The little-endian 16-bit units of `b`, one per whole pair of bytes.
pub open spec fn le_units(b: Seq<u8>) -> Seq<u16> {
    Seq::new(b.len() / 2, |i: int| u16_at(b, 2 * i))
}

/// The units of `u` before the first zero unit.
pub open spec fn units_before_nul(u: Seq<u16>) -> Seq<u16>
    decreases u.len(),
{
    if u.len() == 0 {
        u
    } else if u[0] == 0 {
        Seq::empty()
    } else {
        seq![u[0]] + units_before_nul(u.drop_first())
    }
}

/// The text of a UTF-16LE field: the units before the first NUL, decoded
/// leniently, surrounding white space removed.
pub open spec fn utf16_field_text(b: Seq<u8>) -> Seq<char> {
    trim_ws(utf16_text(units_before_nul(le_units(b))))
}

/// Whether a header announces UTF-16 text fields: protocol 3.5 and later,
/// versions ordered by major number, then minor number.
pub open spec fn uses_utf16(version_major: u8, version_minor: u8) -> bool {
    version_major > 3 || (version_major == 3 && version_minor >= 5)
}

/// The text of a metadata field under the protocol version of a header.
pub open spec fn metadata_text(b: Seq<u8>, version_major: u8, version_minor: u8) -> Seq<char> {
    if uses_utf16(version_major, version_minor) {
        utf16_field_text(b)
    } else {
        field_text(b)
    }
}

/// The display text of a track: artist and title joined by ` - `, either one
/// alone where the other is empty, or `[No Track]`.
pub open spec fn track_text(artist: Seq<char>, title: Seq<char>) -> Seq<char> {
    if artist.len() == 0 && title.len() == 0 {
        "[No Track]"@
    } else if artist.len() == 0 {
        title
    } else if title.len() == 0 {
        artist
    } else {
        artist + " - "@ + title
    }
}

/// Metadata packet containing track information for a layer.
#[derive(Debug, Clone)]
pub struct MetadataPacket {
    /// Common management header
    pub header: ManagementHeader,
    /// Layer this metadata is for
    pub layer: Layer,
    /// Track artist name
    pub artist: String,
    /// Track title
    pub title: String,
    /// Musical key of the track
    pub key: TrackKey,
    /// Track ID (database ID of loaded track)
    pub track_id: u32,
}

impl MetadataPacket {
    /// Whether this packet holds what the bytes `s` encode.
    pub open spec fn decodes(self, s: Seq<u8>) -> bool {
        &&& self.header.decodes(s)
        &&& self.layer == layer_of_id(s[25])
        &&& self.artist@ == metadata_text(s.subrange(29, 285), s[2], s[3])
        &&& self.title@ == metadata_text(s.subrange(285, 541), s[2], s[3])
        &&& self.key.0 == u16_at(s, 541)
        &&& self.track_id == u32_at(s, 543)
    }

    /// Parse a Metadata packet from raw bytes.
    pub fn parse(data: &[u8]) -> (r: Result<Self, TcNetError>)
        ensures
            r is Ok <==> packet_error(data@, 548) is None,
            r matches Ok(p) ==> p.decodes(data@),
            r matches Err(e) ==> packet_error(data@, 548) == Some(e),
    {
        if data.len() < METADATA_PACKET_SIZE {
            return Err(TcNetError::PacketTooShort { expected: METADATA_PACKET_SIZE, actual: data.len() });
        }
        let raw = match RawMetadataPacket::read(data) {
            Ok(raw) => raw,
            Err(e) => return Err(e),
        };
        let header = match ManagementHeader::from_raw(raw.header) {
            Ok(h) => h,
            Err(e) => return Err(e),
        };
        let layer = layer_from_id(raw.layer_id);
        // TCNet 1.0-3.4.9 uses UTF-8, 3.5.0+ uses UTF-16
        let artist = Self::decode_string(raw.track_artist.0.as_slice(), &raw.header);
        let title = Self::decode_string(raw.track_title.0.as_slice(), &raw.header);
        Ok(Self { header, layer, artist, title, key: TrackKey::new(raw.track_key), track_id: raw.track_id })
    }

    /// Decode a string field based on protocol version.
    /// Pre-3.5 uses UTF-8, 3.5+ uses UTF-16LE.
    fn decode_string(bytes: &[u8], raw_header: &RawManagementHeader) -> (r: String)
        ensures
            r@ == metadata_text(bytes@, raw_header.version_major, raw_header.version_minor),
    {
        let is_utf16 = raw_header.version_major > 3 || (raw_header.version_major == 3
            && raw_header.version_minor >= 5);
        if is_utf16 {
            Self::decode_utf16le(bytes)
        } else {
            Self::decode_utf8(bytes)
        }
    }

    /// Decode as UTF-8, trimming null bytes.
    pub fn decode_utf8(bytes: &[u8]) -> (r: String)
        ensures
            r@ == field_text(bytes@),
    {
        field_string(bytes)
    }

    /// Decode as UTF-16LE, trimming null characters.
    pub fn decode_utf16le(bytes: &[u8]) -> (r: String)
        ensures
            r@ == utf16_field_text(bytes@),
    {
        let ghost units = le_units(bytes@);
        let mut values: Vec<u16> = Vec::new();
        let n = bytes.len();
        let half = n / 2;
        let mut j: usize = 0;
        let mut done = false;
        assert(units.skip(0) =~= units);
        while j < half && !done
            invariant
                n == bytes@.len(),
                half == n / 2,
                units == le_units(bytes@),
                units.len() == half,
                j <= half,
                done ==> units_before_nul(units.skip(j as int)) == Seq::<u16>::empty(),
                units_before_nul(units) == values@ + units_before_nul(units.skip(j as int)),
            decreases (half - j) as int + (if done { 0int } else { 1int }),
        {
            let value = bytes[2 * j] as u16 + (bytes[2 * j + 1] as u16) * 256;
            assert(units.skip(j as int)[0] == value);
            if value == 0 {
                done = true;
            } else {
                assert(units.skip(j as int).drop_first() =~= units.skip(j + 1));
                values.push(value);
                j = j + 1;
            }
        }
        proof {
            if !done {
                assert(units.skip(j as int).len() == 0);
            }
            assert(values@ =~= units_before_nul(units));
        }
        let decoded = decode_utf16_lossy(values.as_slice());
        let trimmed = trim_chars(&decoded);
        string_from_chars(&trimmed)
    }

    /// Check if this metadata packet has valid track info loaded.
    pub fn has_track(&self) -> (r: bool)
        ensures
            r == (self.artist@.len() > 0 || self.title@.len() > 0 || self.track_id != 0),
    {
        !self.artist.as_str().is_empty() || !self.title.as_str().is_empty() || self.track_id != 0
    }

    /// Get a formatted display string (Artist - Title).
    pub fn display_string(&self) -> (r: String)
        ensures
            r@ == track_text(self.artist@, self.title@),
    {
        let artist_empty = self.artist.as_str().is_empty();
        let title_empty = self.title.as_str().is_empty();
        if artist_empty && title_empty {
            let mut out: Vec<char> = Vec::new();
            push_str(&mut out, "[No Track]");
            string_from_chars(&out)
        } else if artist_empty {
            self.title.clone()
        } else if title_empty {
            self.artist.clone()
        } else {
            let mut out: Vec<char> = Vec::new();
            push_str(&mut out, self.artist.as_str());
            push_str(&mut out, " - ");
            push_str(&mut out, self.title.as_str());
            string_from_chars(&out)
        }
    }
}

/// A metadata packet decoded from bytes holds, field by field, what the wire
/// record of those bytes reads under the same name; the texts are decoded
/// under the protocol version of the record's header.
pub proof fn lemma_metadata_fields_by_name(p: MetadataPacket, raw: RawMetadataPacket, s: Seq<u8>)
    requires
        s.len() >= 548,
        raw.reads_from(s),
        p.decodes(s),
    ensures
        p.layer == layer_of_id(raw.layer_id),
        p.artist@ == metadata_text(
            raw.track_artist.0@,
            raw.header.version_major,
            raw.header.version_minor,
        ),
        p.title@ == metadata_text(raw.track_title.0@, raw.header.version_major, raw.header.version_minor),
        p.key.0 == raw.track_key,
        p.track_id == raw.track_id,
{
    crate::header::lemma_header_fields_by_name(p.header, raw.header, s);
    assert(raw.track_artist.0@ =~= s.subrange(29, 285));
    assert(raw.track_title.0@ =~= s.subrange(285, 541));
}

} // verus!
