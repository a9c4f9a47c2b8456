use tcnet::packets::{ErrorCode, MetadataPacket, TrackKey};
use tcnet::{Layer, ManagementHeader, MessageType, NodeOptions, NodeType};

#[test]
fn test_error_code_parsing() {
    assert_eq!(ErrorCode::from_u16(1), ErrorCode::RequestUnknown);
    assert_eq!(ErrorCode::from_u16(13), ErrorCode::RequestNotPossible);
    assert_eq!(ErrorCode::from_u16(14), ErrorCode::RequestDataEmpty);
    assert_eq!(ErrorCode::from_u16(255), ErrorCode::RequestOk);
    assert!(matches!(ErrorCode::from_u16(999), ErrorCode::Unknown(999)));
}

#[test]
fn test_error_code_is_error() {
    assert!(ErrorCode::RequestUnknown.is_error());
    assert!(ErrorCode::RequestNotPossible.is_error());
    assert!(ErrorCode::RequestDataEmpty.is_error());
    assert!(!ErrorCode::RequestOk.is_error());
}

#[test]
fn test_decode_utf8() {
    let bytes = b"Test Artist\0\0\0\0\0\0\0\0";
    let result = MetadataPacket::decode_utf8(bytes);
    assert_eq!(result, "Test Artist");
}

#[test]
fn test_decode_utf16le() {
    // "Test" in UTF-16LE: T=0x54, e=0x65, s=0x73, t=0x74
    let bytes: &[u8] = &[0x54, 0x00, 0x65, 0x00, 0x73, 0x00, 0x74, 0x00, 0x00, 0x00];
    let result = MetadataPacket::decode_utf16le(bytes);
    assert_eq!(result, "Test");
}

#[test]
fn test_display_string() {
    let packet = MetadataPacket {
        header: ManagementHeader::new(
            1,
            MessageType::Data,
            "TEST",
            0,
            NodeType::Master,
            NodeOptions::new(),
            0,
        ),
        layer: Layer::Layer1,
        artist: "Daft Punk".to_string(),
        title: "Around the World".to_string(),
        key: TrackKey::new(0),
        track_id: 42,
    };

    assert_eq!(packet.display_string(), "Daft Punk - Around the World");
    assert!(packet.has_track());
}

#[test]
fn test_track_key() {
    let unknown = TrackKey::new(0);
    assert!(unknown.is_unknown());

    let known = TrackKey::new(0x0105);
    assert!(!known.is_unknown());
}
