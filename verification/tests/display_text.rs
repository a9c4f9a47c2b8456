use tcnet::packets::metrics::layer_from_id;
use tcnet::listener::{compact_time_line, format_duration_ms, format_state, time_screen};
use tcnet::packets::{AppDataPacket, ErrorCode, ErrorNotificationPacket, TimePacket, RESOLUME_SIGNATURE};
use tcnet::{
    Layer, LayerState, ManagementHeader, MessageType, NodeOptions, NodeType, SmpteMode, Timecode,
    TimecodeState,
};

#[test]
fn durations_as_minutes_seconds_millis() {
    assert_eq!(format_duration_ms(0), "00:00.000");
    assert_eq!(format_duration_ms(61_234), "01:01.234");
    assert_eq!(format_duration_ms(6_000_000), "100:00.000");
}

#[test]
fn layer_state_labels() {
    assert_eq!(format_state(LayerState::Idle), "IDLE");
    assert_eq!(format_state(LayerState::Playing), "\x1b[32mPLAY\x1b[0m");
    assert_eq!(format_state(LayerState::CueButtonDown), "\x1b[36mCUE\x1b[0m");
    assert_eq!(format_state(LayerState::Hold), "\x1b[33mHOLD\x1b[0m");
}

#[test]
fn timecode_text_and_conversion() {
    assert_eq!(Timecode::new(1, 2, 3, 4).to_text(), "01:02:03:04");
    // 1 h 1 min 1 s and 500 ms at 30 fps is frame 15.
    let tc = Timecode::from_millis(3_661_500, SmpteMode::Fps30);
    assert_eq!(tc, Timecode::new(1, 1, 1, 15));
    // 999 ms at 29.97 fps is frame 29.
    assert_eq!(Timecode::from_millis(999, SmpteMode::Fps29_97).frames, 29);
    assert_eq!(Timecode::from_millis(500, SmpteMode::Fps24).frames, 12);
    assert_eq!(Timecode::from_millis(40, SmpteMode::Fps25).frames, 1);
}

#[test]
fn names_of_values() {
    assert_eq!(NodeType::Master.name(), "Master");
    assert_eq!(MessageType::OptIn.name(), "Opt-IN");
    assert_eq!(LayerState::Playing.name(), "PLAYING");
    assert_eq!(SmpteMode::Fps29_97.name(), "29.97fps");
    assert_eq!(TimecodeState::ForceResync.name(), "RESYNC");
    assert_eq!(Layer::LayerM.name(), "LM");
}

#[test]
fn wire_values() {
    assert_eq!(NodeType::from_u8(8), Some(NodeType::Repeater));
    assert_eq!(NodeType::from_u8(3), None);
    assert_eq!(NodeType::Slave.as_u8(), 4);
    assert_eq!(MessageType::from_u8(254), Some(MessageType::Time));
    assert_eq!(MessageType::Data.as_u8(), 200);
    assert_eq!(MessageType::from_u8(1), None);
    assert_eq!(LayerState::from_u8(11), LayerState::Hold);
    assert_eq!(LayerState::from_u8(1), LayerState::Idle);
    assert!(LayerState::Looping.is_active());
    assert!(!LayerState::Paused.is_active());
    assert_eq!(SmpteMode::from_u8(29), SmpteMode::Fps29_97);
    assert_eq!(SmpteMode::from_u8(0), SmpteMode::Fps25);
    assert_eq!(SmpteMode::Fps29_97.frames_per_100s(), 2997);
    assert_eq!(TimecodeState::from_u8(2), TimecodeState::ForceResync);
    assert_eq!(ErrorCode::RequestOk.as_u16(), 255);
    assert_eq!(ErrorCode::Unknown(999).as_u16(), 999);
}

#[test]
fn layers_by_index() {
    assert_eq!(Layer::from_index(0), Some(Layer::Layer1));
    assert_eq!(Layer::from_index(6), Some(Layer::LayerM));
    assert_eq!(Layer::from_index(8), None);
    assert_eq!(Layer::from_index_or_first(9), Layer::Layer1);
    assert_eq!(Layer::LayerC.index(), 7);
    let all = Layer::all();
    for (i, l) in all.iter().enumerate() {
        assert_eq!(l.index(), i);
    }
}

#[test]
fn node_option_flags() {
    let o = NodeOptions::new().with_control_messages().with_app_specific_data();
    assert!(o.supports_control());
    assert!(o.supports_app_data());
    assert!(!o.needs_auth());
    assert!(!o.do_not_disturb());
    assert!(NodeOptions(9).needs_auth());
    assert!(NodeOptions(9).do_not_disturb());
}

#[test]
fn error_texts() {
    assert_eq!(ErrorCode::RequestNotPossible.to_text(), "Request Not Possible");
    assert_eq!(ErrorCode::Unknown(999).to_text(), "Unknown(999)");
    let p = ErrorNotificationPacket {
        header: ManagementHeader::new(1, MessageType::ErrorNotification, "BRIDGE", 0, NodeType::Master, NodeOptions::new(), 0),
        data_type: 4,
        layer: Some(Layer::Layer2),
        layer_id: 2,
        code: ErrorCode::RequestDataEmpty,
        request_message_type: 20,
    };
    assert_eq!(p.request_description(), "Metadata for L2");
    assert_eq!(p.to_text(), "Error from BRIDGE: Data Empty - Metadata for L2 (request: 20)");
}

#[test]
fn app_data_packets() {
    let p = AppDataPacket::new(7, "Arena", 3, NodeType::Slave, NodeOptions::new(), 0, 1, 2, vec![9, 8, 7]);
    let b = p.to_bytes();
    assert_eq!(b.len(), 45);
    assert_eq!(b[7], 30);
    assert_eq!(&b[24..26], &[1, 2]);
    assert_eq!(&b[26..30], &[3, 0, 0, 0]);
    assert_eq!(&b[30..34], &[1, 0, 0, 0]);
    assert_eq!(&b[34..38], &[1, 0, 0, 0]);
    assert_eq!(&b[38..42], &[0, 0, 0, 0]);
    assert_eq!(&b[42..], &[9, 8, 7]);
    let pair = AppDataPacket::resolume_style_pair(7, "Arena", 255, NodeType::Slave, NodeOptions::new(), 0);
    assert_eq!(pair.len(), 2);
    assert_eq!(pair[0].header.sequence, 255);
    assert_eq!(pair[1].header.sequence, 0);
    assert_eq!(pair[0].signature, RESOLUME_SIGNATURE);
    assert_eq!(pair[1].data[0], 2);
    assert_eq!(pair[0].data.len(), 20);
    assert_eq!(pair[1].to_bytes().len(), 62);
}

fn time_packet_with_two_layers() -> TimePacket {
    let mut b = ManagementHeader::new(1, MessageType::Time, "BRIDGE", 0, NodeType::Master, NodeOptions::new(), 0)
        .to_bytes()
        .to_vec();
    b.resize(162, 0);
    b[24..28].copy_from_slice(&61_234u32.to_le_bytes());
    b[56..60].copy_from_slice(&180_000u32.to_le_bytes());
    b[96] = 3; // layer 1 playing
    b[105] = 30;
    b[108..112].copy_from_slice(&[1, 2, 3, 4]);
    b[154] = 7;
    b[119] = 1; // layer 3 running timecode
    TimePacket::parse(&b).unwrap()
}

#[test]
fn compact_line_of_active_layers() {
    let p = time_packet_with_two_layers();
    assert_eq!(
        compact_time_line(&p, false).unwrap(),
        "\r\x1b[KL1:01:02:03:04 \x1b[32mPLAY\x1b[0m | L3:00:00:00:00 IDLE"
    );
    let all = compact_time_line(&p, true).unwrap();
    assert_eq!(all.matches(" | ").count(), 7);
    let empty = TimePacket::parse(&{
        let mut b = ManagementHeader::new(1, MessageType::Time, "X", 0, NodeType::Master, NodeOptions::new(), 0)
            .to_bytes()
            .to_vec();
        b.resize(154, 0);
        b
    })
    .unwrap();
    assert!(compact_time_line(&empty, false).is_none());
    assert!(time_screen(&empty, false).is_none());
}

#[test]
fn full_screen_table() {
    let p = time_packet_with_two_layers();
    let screen = time_screen(&p, false).unwrap();
    assert!(screen.starts_with("\x1b[2J\x1b[H\x1b[1;36m╔"));
    assert!(screen.contains("Source: \x1b[33mBRIDGE  \x1b[0m  SMPTE: \x1b[33m30fps\x1b[0m"));
    assert!(screen.contains(
        "\x1b[1mL1    \x1b[0m \x1b[1;37m01:02:03:04\x1b[0m   01:01.234  03:00.000   \x1b[32mPLAY\x1b[0m   \x1b[32m  7\x1b[0m   "
    ));
    assert!(screen.contains("\x1b[1mL3    \x1b[0m"));
    assert!(screen.ends_with("\n\x1b[90mPress Ctrl+C to exit\x1b[0m\n"));
    assert_eq!(screen.lines().count(), 10);
}

#[test]
fn layers_from_one_based_ids() {
    assert_eq!(layer_from_id(0), Layer::Layer1);
    assert_eq!(layer_from_id(1), Layer::Layer1);
    assert_eq!(layer_from_id(7), Layer::LayerM);
    assert_eq!(layer_from_id(8), Layer::LayerC);
    assert_eq!(layer_from_id(9), Layer::Layer1);
}
