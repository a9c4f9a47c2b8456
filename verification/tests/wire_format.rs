use tcnet::packets::{
    ErrorCode, ErrorNotificationPacket, MetadataPacket, MetricsDataPacket, MixerDataPacket,
    OptInBuilder, OptInPacket, RequestDataType, RequestPacket, StatusPacket, TimePacket,
};
use tcnet::{
    Layer, LayerState, ManagementHeader, MessageType, MixerType, NodeOptions, NodeType, Packet,
    SmpteMode, TcNetError, Timecode, TimecodeState,
};

/// A 24-byte management header with protocol version 3.5.
fn header(message_type: u8, name: &[u8], node_type: u8) -> Vec<u8> {
    let mut b = vec![0u8; 24];
    b[0] = 0x34;
    b[1] = 0x12;
    b[2] = 3;
    b[3] = 5;
    b[4] = b'T';
    b[5] = b'C';
    b[6] = b'N';
    b[7] = message_type;
    for i in 0..8 {
        b[8 + i] = if i < name.len() { name[i] } else { b' ' };
    }
    b[16] = 9;
    b[17] = node_type;
    b[18] = 0x02;
    b[19] = 0x00;
    b[20] = 0x40;
    b[21] = 0xE2;
    b[22] = 0x01;
    b[23] = 0x00;
    b
}

fn packet_of(message_type: u8, size: usize) -> Vec<u8> {
    let mut b = header(message_type, b"BRIDGE", 2);
    b.resize(size, 0);
    b
}

fn put_u32(b: &mut [u8], off: usize, v: u32) {
    b[off..off + 4].copy_from_slice(&v.to_le_bytes());
}

fn put_u16(b: &mut [u8], off: usize, v: u16) {
    b[off..off + 2].copy_from_slice(&v.to_le_bytes());
}

#[test]
fn header_bytes_and_back() {
    let h = ManagementHeader::new(
        0x1234,
        MessageType::Status,
        "BRIDGE",
        7,
        NodeType::Master,
        NodeOptions::new().with_control_messages(),
        123_456,
    );
    let bytes = h.to_bytes();
    assert_eq!(&bytes[0..8], &[0x34, 0x12, 3, 5, b'T', b'C', b'N', 5]);
    assert_eq!(&bytes[8..16], b"BRIDGE  ");
    assert_eq!(&bytes[16..24], &[7, 2, 2, 0, 0x40, 0xE2, 0x01, 0x00]);
    let back = ManagementHeader::parse(&bytes).unwrap();
    assert_eq!(back.node_id, 0x1234);
    assert_eq!(back.message_type, MessageType::Status);
    assert_eq!(back.sequence, 7);
    assert_eq!(back.node_type, NodeType::Master);
    assert_eq!(back.node_options, NodeOptions(2));
    assert_eq!(back.timestamp_us, 123_456);
    assert_eq!(back.node_name_str(), "BRIDGE");
    assert_eq!(back.version_string(), "3.5");
}

#[test]
fn header_name_is_cut_to_eight_bytes() {
    let h = ManagementHeader::new(1, MessageType::OptIn, "LONGNODENAME", 0, NodeType::Slave, NodeOptions::new(), 0);
    assert_eq!(&h.node_name, b"LONGNODE");
    assert_eq!(h.node_name_str(), "LONGNODE");
}

#[test]
fn header_errors() {
    assert!(matches!(
        ManagementHeader::parse(&[0u8; 10]),
        Err(TcNetError::PacketTooShort { expected: 24, actual: 10 })
    ));
    let mut b = header(5, b"X", 2);
    b[5] = b'X';
    assert!(matches!(ManagementHeader::parse(&b), Err(TcNetError::InvalidHeader([b'T', b'X', b'N']))));
    let b = header(99, b"X", 2);
    assert!(matches!(ManagementHeader::parse(&b), Err(TcNetError::UnknownMessageType(99))));
    let b = header(5, b"X", 3);
    assert!(matches!(ManagementHeader::parse(&b), Err(TcNetError::UnknownNodeType(3))));
}

#[test]
fn opt_in_bytes_parse_back() {
    let p = OptInPacket::new(
        0x0102,
        "Arena",
        4,
        NodeType::Slave,
        NodeOptions::new(),
        999_999,
        3,
        65100,
        42,
        "Resolume",
        "Arena",
        (7, 23, 2),
    );
    let bytes = p.to_bytes();
    assert_eq!(bytes.len(), 68);
    assert_eq!(bytes[7], 2);
    match Packet::parse(&bytes).unwrap() {
        Packet::OptIn(q) => {
            assert_eq!(q.header.node_name_str(), "Arena");
            assert_eq!(q.header.node_id, 0x0102);
            assert_eq!(q.header.sequence, 4);
            assert_eq!(q.node_count, 3);
            assert_eq!(q.listener_port, 65100);
            assert_eq!(q.uptime_secs, 42);
            assert_eq!(q.vendor_name_str(), "Resolume");
            assert_eq!(q.app_name_str(), "Arena");
            assert_eq!(q.app_version_str(), "7.23.2");
        }
        other => panic!("unexpected packet {:?}", other),
    }
}

#[test]
fn opt_in_builder_defaults_and_settings() {
    let p = OptInBuilder::new("NODE")
        .node_id(77)
        .node_type(NodeType::Repeater)
        .listener_port(65200)
        .vendor("Vendor")
        .app_name("App")
        .app_version(1, 2, 3)
        .build(5, 10, 2, 100);
    assert_eq!(p.header.node_id, 77);
    assert_eq!(p.header.node_type, NodeType::Repeater);
    assert_eq!(p.header.message_type, MessageType::OptIn);
    assert_eq!(p.header.sequence, 5);
    assert_eq!(p.header.timestamp_us, 10);
    assert_eq!(p.node_count, 2);
    assert_eq!(p.uptime_secs, 100);
    assert_eq!(p.listener_port, 65200);
    assert_eq!(p.vendor_name_str(), "Vendor");
    assert_eq!(p.app_version_str(), "1.2.3");
}

#[test]
fn opt_in_too_short() {
    let b = packet_of(2, 40);
    assert!(matches!(Packet::parse(&b), Err(TcNetError::PacketTooShort { expected: 68, actual: 40 })));
}

#[test]
fn opt_out_gives_its_header() {
    let b = packet_of(3, 24);
    match Packet::parse(&b).unwrap() {
        Packet::OptOut(h) => assert_eq!(h.node_name_str(), "BRIDGE"),
        other => panic!("unexpected packet {:?}", other),
    }
}

#[test]
fn request_bytes_parse_as_unknown() {
    let r = RequestPacket::new(5, "Arena", 1, NodeType::Slave, NodeOptions::new(), 0, RequestDataType::Metadata, 3);
    let bytes = r.to_bytes();
    assert_eq!(bytes.len(), 26);
    assert_eq!(bytes[7], 20);
    assert_eq!(bytes[24], 4);
    assert_eq!(bytes[25], 3);
    match Packet::parse(&bytes).unwrap() {
        Packet::Unknown(h) => assert_eq!(h.message_type, MessageType::Request),
        other => panic!("unexpected packet {:?}", other),
    }
    let m = RequestPacket::mixer_data(5, "Arena", 2, NodeType::Slave, NodeOptions::new(), 0);
    assert_eq!(m.to_bytes()[24], 150);
}

#[test]
fn time_packet_fields() {
    let mut b = packet_of(254, 162);
    put_u32(&mut b, 24, 61_234);
    put_u32(&mut b, 56, 180_000);
    b[88] = 2;
    b[96] = 3; // layer 1 playing
    b[105] = 30;
    b[106] = 0; // layer 1 uses the general mode
    b[107] = 1;
    b[108] = 1;
    b[109] = 2;
    b[110] = 3;
    b[111] = 4;
    b[112] = 25; // layer 2 own mode
    b[154] = 200;
    let p = TimePacket::parse(&b).unwrap();
    assert_eq!(p.smpte_mode, SmpteMode::Fps30);
    let l1 = p.layer(Layer::Layer1);
    assert_eq!(l1.time_ms, 61_234);
    assert_eq!(l1.total_time_ms, 180_000);
    assert_eq!(l1.beat_marker, 2);
    assert_eq!(l1.state, LayerState::Playing);
    assert_eq!(l1.smpte_mode, SmpteMode::Fps30);
    assert_eq!(l1.tc_state, TimecodeState::Running);
    assert_eq!(l1.timecode, Timecode::new(1, 2, 3, 4));
    assert_eq!(l1.on_air, 200);
    assert_eq!(l1.remaining_ms(), 118_766);
    assert_eq!(p.layers[1].smpte_mode, SmpteMode::Fps25);
    let active = p.active_layers();
    assert_eq!(active.len(), 1);
    assert_eq!(active[0].layer, Layer::Layer1);
}

#[test]
fn time_packet_without_on_air_data() {
    let mut b = packet_of(254, 154);
    b[97] = 3;
    let p = TimePacket::parse(&b).unwrap();
    assert_eq!(p.layers[1].on_air, 0);
    assert_eq!(p.layers[1].state, LayerState::Playing);
    assert!(matches!(
        TimePacket::parse(&b[..100]),
        Err(TcNetError::PacketTooShort { expected: 154, actual: 100 })
    ));
}

#[test]
fn status_packet_fields() {
    let mut b = packet_of(5, 300);
    put_u16(&mut b, 24, 4);
    put_u16(&mut b, 26, 65050);
    b[34] = 1;
    b[42] = 3;
    put_u32(&mut b, 50, 777);
    b[83] = 24;
    b[84] = 1;
    b[172..178].copy_from_slice(b"Deck A");
    let p = StatusPacket::parse(&b).unwrap();
    assert_eq!(p.node_count, 4);
    assert_eq!(p.listener_port, 65050);
    assert_eq!(p.smpte_mode, SmpteMode::Fps24);
    assert_eq!(p.auto_master_mode, 1);
    assert_eq!(p.layers[0].source, 1);
    assert_eq!(p.layers[0].status, LayerState::Playing);
    assert_eq!(p.layers[0].track_id, 777);
    assert_eq!(p.layers[0].name, "Deck A");
    assert_eq!(p.active_layers().len(), 1);
    assert!(matches!(
        StatusPacket::parse(&b[..200]),
        Err(TcNetError::PacketTooShort { expected: 300, actual: 200 })
    ));
}

#[test]
fn error_notification_fields() {
    let mut b = packet_of(13, 30);
    b[24] = 4;
    b[25] = 2;
    put_u16(&mut b, 26, 14);
    put_u16(&mut b, 28, 20);
    let p = ErrorNotificationPacket::parse(&b).unwrap();
    assert_eq!(p.data_type, 4);
    assert_eq!(p.layer_id, 2);
    assert_eq!(p.layer, Some(Layer::Layer2));
    assert_eq!(p.code, ErrorCode::RequestDataEmpty);
    assert_eq!(p.request_message_type, 20);
    match Packet::parse(&b).unwrap() {
        Packet::ErrorNotification(q) => assert_eq!(q.code, ErrorCode::RequestDataEmpty),
        other => panic!("unexpected packet {:?}", other),
    }
}

#[test]
fn metrics_packet_fields() {
    let mut b = packet_of(200, 122);
    b[24] = 2;
    b[25] = 3;
    b[27] = 5;
    b[29] = 1;
    b[31] = 4;
    put_u32(&mut b, 32, 180_000);
    put_u32(&mut b, 36, 60_000);
    put_u32(&mut b, 40, 32768);
    put_u32(&mut b, 57, 100);
    put_u32(&mut b, 112, 12_800);
    put_u16(&mut b, 116, 32768);
    put_u32(&mut b, 118, 42);
    match Packet::parse(&b).unwrap() {
        Packet::MetricsData(p) => {
            assert_eq!(p.layer, Layer::Layer3);
            assert_eq!(p.layer_state, LayerState::Paused);
            assert!(p.is_sync_master);
            assert_eq!(p.beat_marker, 4);
            assert_eq!(p.track_length_ms, 180_000);
            assert_eq!(p.current_position_ms, 60_000);
            assert_eq!(p.speed, 32768);
            assert_eq!(p.beat_number, 100);
            assert_eq!(p.bpm_raw, 12_800);
            assert_eq!(p.pitch_bend, 32768);
            assert_eq!(p.track_id, 42);
            assert_eq!(p.remaining_ms(), 120_000);
            assert_eq!(p.position_string(), "01:00.000");
            assert_eq!(p.track_length_string(), "03:00");
        }
        other => panic!("unexpected packet {:?}", other),
    }
    let short = &b[..100];
    assert!(matches!(
        MetricsDataPacket::parse(short),
        Err(TcNetError::PacketTooShort { expected: 122, actual: 100 })
    ));
}

#[test]
fn metadata_packet_utf16_fields() {
    let mut b = packet_of(200, 548);
    b[24] = 4;
    b[25] = 1;
    for (i, c) in "Daft Punk".encode_utf16().enumerate() {
        put_u16(&mut b, 29 + 2 * i, c);
    }
    for (i, c) in "Around the World".encode_utf16().enumerate() {
        put_u16(&mut b, 285 + 2 * i, c);
    }
    put_u16(&mut b, 541, 0x0105);
    put_u32(&mut b, 543, 42);
    let p = MetadataPacket::parse(&b).unwrap();
    assert_eq!(p.layer, Layer::Layer1);
    assert_eq!(p.artist, "Daft Punk");
    assert_eq!(p.title, "Around the World");
    assert_eq!(p.key.raw(), 0x0105);
    assert_eq!(p.key.to_text(), "Key(261)");
    assert_eq!(p.track_id, 42);
    assert_eq!(p.display_string(), "Daft Punk - Around the World");
}

#[test]
fn metadata_packet_utf8_before_version_3_5() {
    let mut b = packet_of(200, 548);
    b[3] = 4; // protocol 3.4
    b[24] = 4;
    b[25] = 2;
    b[29..35].copy_from_slice(b"Artist");
    let p = MetadataPacket::parse(&b).unwrap();
    assert_eq!(p.artist, "Artist");
    assert_eq!(p.title, "");
    assert_eq!(p.display_string(), "Artist");
    assert!(p.has_track());
}

#[test]
fn metadata_without_track() {
    let mut b = packet_of(200, 548);
    b[24] = 4;
    let p = MetadataPacket::parse(&b).unwrap();
    assert!(!p.has_track());
    assert_eq!(p.display_string(), "[No Track]");
    assert_eq!(p.key.to_text(), "Unknown");
}

#[test]
fn mixer_packet_fields() {
    let mut b = packet_of(200, 270);
    b[24] = 150;
    b[25] = 1;
    b[26] = 2;
    b[29..33].copy_from_slice(b"DJM1");
    b[62] = 200;
    b[99] = 64;
    b[125 + 2] = 255; // channel 1 fader
    b[125 + 24 + 2] = 0; // channel 2 fader down
    b[125 + 48 + 11] = 1; // channel 3 cue A
    let p = MixerDataPacket::parse(&b).unwrap();
    assert_eq!(p.mixer_id, 1);
    assert_eq!(p.mixer_type, MixerType::Extended);
    assert_eq!(p.mixer_name, "DJM1");
    assert_eq!(p.master.fader_level, 200);
    assert_eq!(p.crossfader.position, 64);
    assert_eq!(p.channels[0].number, 1);
    assert_eq!(p.channels[0].fader_level, 255);
    assert!(p.channels[0].is_fader_up(0));
    assert!(!p.channels[1].is_fader_up(0));
    assert!(p.channels[2].is_cue_active());
    assert_eq!(p.channel(3).unwrap().number, 3);
    assert!(p.channel(0).is_none());
    assert!(p.channel(7).is_none());
    let active = p.active_channels(0);
    assert_eq!(active.len(), 1);
    assert_eq!(active[0].number, 1);
}

#[test]
fn mixer_packet_wrong_data_type() {
    let mut b = packet_of(200, 270);
    b[24] = 7;
    match MixerDataPacket::parse(&b) {
        Err(TcNetError::ParseError(m)) => assert_eq!(m, "expected data type 150, got 7"),
        other => panic!("unexpected result {:?}", other),
    }
    // Through the packet dispatcher an unknown data type is passed on as is.
    assert!(matches!(Packet::parse(&b), Ok(Packet::Unknown(_))));
}

#[test]
fn error_notification_without_layer() {
    let mut b = packet_of(13, 30);
    b[24] = 150;
    b[25] = 0;
    put_u16(&mut b, 26, 999);
    let p = ErrorNotificationPacket::parse(&b).unwrap();
    assert_eq!(p.layer, None);
    assert_eq!(p.code, ErrorCode::Unknown(999));
    assert_eq!(p.request_description(), "MixerData");
    assert!(matches!(
        ErrorNotificationPacket::parse(&b[..29]),
        Err(TcNetError::PacketTooShort { expected: 30, actual: 29 })
    ));
}

#[test]
fn metadata_packet_utf16_from_version_4() {
    let mut b = packet_of(200, 548);
    b[2] = 4;
    b[3] = 0; // protocol 4.0
    b[24] = 4;
    for (i, c) in "Artist".encode_utf16().enumerate() {
        put_u16(&mut b, 29 + 2 * i, c);
    }
    let p = MetadataPacket::parse(&b).unwrap();
    assert_eq!(p.artist, "Artist");
}

#[test]
fn utf16_surrogates() {
    // An unpaired high surrogate, then 'A', then a surrogate pair (U+1F600).
    let bytes: &[u8] = &[0x00, 0xD8, 0x41, 0x00, 0x3D, 0xD8, 0x00, 0xDE, 0x00, 0x00];
    assert_eq!(MetadataPacket::decode_utf16le(bytes), "\u{FFFD}A\u{1F600}");
    // A lone low surrogate.
    assert_eq!(MetadataPacket::decode_utf16le(&[0x00, 0xDC]), "\u{FFFD}");
}

#[test]
fn layer_and_mixer_wire_numbers() {
    assert_eq!(Layer::Layer1.as_u8(), 1);
    assert_eq!(Layer::LayerM.as_u8(), 7);
    assert_eq!(Layer::LayerC.as_u8(), 8);
    assert_eq!(MixerType::Standard.as_u8(), 0);
    assert_eq!(MixerType::Extended.as_u8(), 2);
    assert_eq!(MixerType::from_u8(MixerType::Extended.as_u8()), MixerType::Extended);
}
