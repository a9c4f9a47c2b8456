//! Core types of the TCNet protocol: node types, message types, layer and
//! timecode states, node options, layers and SMPTE timecode values.
use vstd::prelude::*;
use crate::text::{decimal_padded, push_decimal, string_from_chars};

verus! {

/// TCNet protocol version (major).
pub const PROTOCOL_VERSION_MAJOR: u8 = 3;

/// TCNet protocol version (minor).
pub const PROTOCOL_VERSION_MINOR: u8 = 5;

/// TCNet header signature, the ASCII letters `TCN`.
pub const TCNET_HEADER: [u8; 3] = [84u8, 67u8, 78u8];

/// Broadcast port for management messages.
pub const PORT_BROADCAST_CONTROL: u16 = 60000;

/// Broadcast port for time packets.
pub const PORT_BROADCAST_TIME: u16 = 60001;

/// Lowest port of the unicast listener range.
pub const PORT_UNICAST_DEFAULT: u16 = 65023;

/// Highest port of the unicast listener range.
pub const PORT_UNICAST_MAX: u16 = 65535;

/// Management header size in bytes.
pub const MANAGEMENT_HEADER_SIZE: usize = 24;

/// Opt-IN packet total size.
pub const OPT_IN_PACKET_SIZE: usize = 68;

/// Time packet minimum size (without on-air data, before V3.3.3).
pub const TIME_PACKET_MIN_SIZE: usize = 154;

/// Time packet full size (with on-air data, V3.3.3 and later).
pub const TIME_PACKET_SIZE: usize = 162;

/// Node type in the TCNet network.
#[derive(Debug, Clone, Copy, PartialEq, Eq, Hash, Structural)]
pub enum NodeType {
    /// Auto mode - can become master if needed
    Auto,
    /// Master node - generates and sends timecode
    Master,
    /// Slave node - receives timecode only
    Slave,
    /// Repeater node - can receive and forward timecode
    Repeater,
}

impl NodeType {
    /// The node type that the wire value `v` stands for.
    pub open spec fn spec_from_u8(v: u8) -> Option<NodeType> {
        if v == 1 {
            Some(NodeType::Auto)
        } else if v == 2 {
            Some(NodeType::Master)
        } else if v == 4 {
            Some(NodeType::Slave)
        } else if v == 8 {
            Some(NodeType::Repeater)
        } else {
            None
        }
    }

    /// The wire value of a node type.
    pub open spec fn code(self) -> u8 {
        match self {
            NodeType::Auto => 1,
            NodeType::Master => 2,
            NodeType::Slave => 4,
            NodeType::Repeater => 8,
        }
    }

    /// The display name of a node type.
    pub open spec fn spec_name(self) -> Seq<char> {
        match self {
            NodeType::Auto => "Auto"@,
            NodeType::Master => "Master"@,
            NodeType::Slave => "Slave"@,
            NodeType::Repeater => "Repeater"@,
        }
    }

    pub fn from_u8(value: u8) -> (r: Option<Self>)
        ensures
            r == Self::spec_from_u8(value),
    {
        match value {
            1 => Some(Self::Auto),
            2 => Some(Self::Master),
            4 => Some(Self::Slave),
            8 => Some(Self::Repeater),
            _ => None,
        }
    }

    /// The wire value of this node type.
    pub fn as_u8(self) -> (r: u8)
        ensures
            r == self.code(),
    {
        match self {
            Self::Auto => 1,
            Self::Master => 2,
            Self::Slave => 4,
            Self::Repeater => 8,
        }
    }

    /// The display name of this node type.
    pub fn name(&self) -> (r: &'static str)
        ensures
            r@ == self.spec_name(),
    {
        match self {
            Self::Auto => "Auto",
            Self::Master => "Master",
            Self::Slave => "Slave",
            Self::Repeater => "Repeater",
        }
    }
}

/// Reading a node type back from its wire value gives the same node type.
pub proof fn lemma_node_type_roundtrip(t: NodeType)
    ensures
        NodeType::spec_from_u8(t.code()) == Some(t),
{
}

/// Message types in TCNet protocol.
#[derive(Debug, Clone, Copy, PartialEq, Eq, Hash, Structural)]
pub enum MessageType {
    /// Opt-IN packet for joining network
    OptIn,
    /// Opt-OUT packet for leaving network
    OptOut,
    /// Status packet
    Status,
    /// Time sync packet
    TimeSync,
    /// Error notification
    ErrorNotification,
    /// Request packet
    Request,
    /// Application specific data
    ApplicationData,
    /// Control messages
    Control,
    /// Text data
    TextData,
    /// Keyboard data
    KeyboardData,
    /// Data packet (various subtypes)
    Data,
    /// File data packet
    FileData,
    /// Time packet
    Time,
}

impl MessageType {
    /// The value that the wire value `v` stands for.
    pub open spec fn spec_from_u8(v: u8) -> Option<MessageType> {
        if v == 2 {
            Some(MessageType::OptIn)
        } else if v == 3 {
            Some(MessageType::OptOut)
        } else if v == 5 {
            Some(MessageType::Status)
        } else if v == 10 {
            Some(MessageType::TimeSync)
        } else if v == 13 {
            Some(MessageType::ErrorNotification)
        } else if v == 20 {
            Some(MessageType::Request)
        } else if v == 30 {
            Some(MessageType::ApplicationData)
        } else if v == 101 {
            Some(MessageType::Control)
        } else if v == 128 {
            Some(MessageType::TextData)
        } else if v == 132 {
            Some(MessageType::KeyboardData)
        } else if v == 200 {
            Some(MessageType::Data)
        } else if v == 204 {
            Some(MessageType::FileData)
        } else if v == 254 {
            Some(MessageType::Time)
        } else {
            None
        }
    }

    /// The wire value of this value.
    pub open spec fn code(self) -> u8 {
        match self {
            MessageType::OptIn => 2,
            MessageType::OptOut => 3,
            MessageType::Status => 5,
            MessageType::TimeSync => 10,
            MessageType::ErrorNotification => 13,
            MessageType::Request => 20,
            MessageType::ApplicationData => 30,
            MessageType::Control => 101,
            MessageType::TextData => 128,
            MessageType::KeyboardData => 132,
            MessageType::Data => 200,
            MessageType::FileData => 204,
            MessageType::Time => 254,
        }
    }

    /// The display name of this value.
    pub open spec fn spec_name(self) -> Seq<char> {
        match self {
            MessageType::OptIn => "Opt-IN"@,
            MessageType::OptOut => "Opt-OUT"@,
            MessageType::Status => "Status"@,
            MessageType::TimeSync => "TimeSync"@,
            MessageType::ErrorNotification => "Error"@,
            MessageType::Request => "Request"@,
            MessageType::ApplicationData => "AppData"@,
            MessageType::Control => "Control"@,
            MessageType::TextData => "Text"@,
            MessageType::KeyboardData => "Keyboard"@,
            MessageType::Data => "Data"@,
            MessageType::FileData => "FileData"@,
            MessageType::Time => "Time"@,
        }
    }

    pub fn from_u8(value: u8) -> (r: Option<Self>)
        ensures
            r == Self::spec_from_u8(value),
    {
        match value {
            2 => Some(Self::OptIn),
            3 => Some(Self::OptOut),
            5 => Some(Self::Status),
            10 => Some(Self::TimeSync),
            13 => Some(Self::ErrorNotification),
            20 => Some(Self::Request),
            30 => Some(Self::ApplicationData),
            101 => Some(Self::Control),
            128 => Some(Self::TextData),
            132 => Some(Self::KeyboardData),
            200 => Some(Self::Data),
            204 => Some(Self::FileData),
            254 => Some(Self::Time),
            _ => None,
        }
    }

    /// The wire value of this value.
    pub fn as_u8(self) -> (r: u8)
        ensures
            r == self.code(),
    {
        match self {
            Self::OptIn => 2,
            Self::OptOut => 3,
            Self::Status => 5,
            Self::TimeSync => 10,
            Self::ErrorNotification => 13,
            Self::Request => 20,
            Self::ApplicationData => 30,
            Self::Control => 101,
            Self::TextData => 128,
            Self::KeyboardData => 132,
            Self::Data => 200,
            Self::FileData => 204,
            Self::Time => 254,
        }
    }

    /// The display name of this value.
    pub fn name(&self) -> (r: &'static str)
        ensures
            r@ == self.spec_name(),
    {
        match self {
            Self::OptIn => "Opt-IN",
            Self::OptOut => "Opt-OUT",
            Self::Status => "Status",
            Self::TimeSync => "TimeSync",
            Self::ErrorNotification => "Error",
            Self::Request => "Request",
            Self::ApplicationData => "AppData",
            Self::Control => "Control",
            Self::TextData => "Text",
            Self::KeyboardData => "Keyboard",
            Self::Data => "Data",
            Self::FileData => "FileData",
            Self::Time => "Time",
        }
    }
}

/// Layer state indicating playback status.
#[derive(Debug, Clone, Copy, PartialEq, Eq, Hash, Structural, Default)]
pub enum LayerState {
    #[default]
    Idle,
    Playing,
    Looping,
    Paused,
    Stopped,
    CueButtonDown,
    PlatterDown,
    FastForward,
    FastReverse,
    Hold,
}

impl LayerState {
    /// The value that the wire value `v` stands for.
    pub open spec fn spec_from_u8(v: u8) -> LayerState {
        if v == 0 {
            LayerState::Idle
        } else if v == 3 {
            LayerState::Playing
        } else if v == 4 {
            LayerState::Looping
        } else if v == 5 {
            LayerState::Paused
        } else if v == 6 {
            LayerState::Stopped
        } else if v == 7 {
            LayerState::CueButtonDown
        } else if v == 8 {
            LayerState::PlatterDown
        } else if v == 9 {
            LayerState::FastForward
        } else if v == 10 {
            LayerState::FastReverse
        } else if v == 11 {
            LayerState::Hold
        } else {
            LayerState::Idle
        }
    }

    /// The wire value of this value.
    pub open spec fn code(self) -> u8 {
        match self {
            LayerState::Idle => 0,
            LayerState::Playing => 3,
            LayerState::Looping => 4,
            LayerState::Paused => 5,
            LayerState::Stopped => 6,
            LayerState::CueButtonDown => 7,
            LayerState::PlatterDown => 8,
            LayerState::FastForward => 9,
            LayerState::FastReverse => 10,
            LayerState::Hold => 11,
        }
    }

    /// The display name of this value.
    pub open spec fn spec_name(self) -> Seq<char> {
        match self {
            LayerState::Idle => "IDLE"@,
            LayerState::Playing => "PLAYING"@,
            LayerState::Looping => "LOOPING"@,
            LayerState::Paused => "PAUSED"@,
            LayerState::Stopped => "STOPPED"@,
            LayerState::CueButtonDown => "CUE"@,
            LayerState::PlatterDown => "PLATTER"@,
            LayerState::FastForward => "FFWD"@,
            LayerState::FastReverse => "FFRV"@,
            LayerState::Hold => "HOLD"@,
        }
    }

    pub fn from_u8(value: u8) -> (r: Self)
        ensures
            r == Self::spec_from_u8(value),
    {
        match value {
            0 => Self::Idle,
            3 => Self::Playing,
            4 => Self::Looping,
            5 => Self::Paused,
            6 => Self::Stopped,
            7 => Self::CueButtonDown,
            8 => Self::PlatterDown,
            9 => Self::FastForward,
            10 => Self::FastReverse,
            11 => Self::Hold,
            _ => Self::Idle,
        }
    }

    /// The wire value of this value.
    pub fn as_u8(self) -> (r: u8)
        ensures
            r == self.code(),
    {
        match self {
            Self::Idle => 0,
            Self::Playing => 3,
            Self::Looping => 4,
            Self::Paused => 5,
            Self::Stopped => 6,
            Self::CueButtonDown => 7,
            Self::PlatterDown => 8,
            Self::FastForward => 9,
            Self::FastReverse => 10,
            Self::Hold => 11,
        }
    }

    /// The display name of this value.
    pub fn name(&self) -> (r: &'static str)
        ensures
            r@ == self.spec_name(),
    {
        match self {
            Self::Idle => "IDLE",
            Self::Playing => "PLAYING",
            Self::Looping => "LOOPING",
            Self::Paused => "PAUSED",
            Self::Stopped => "STOPPED",
            Self::CueButtonDown => "CUE",
            Self::PlatterDown => "PLATTER",
            Self::FastForward => "FFWD",
            Self::FastReverse => "FFRV",
            Self::Hold => "HOLD",
        }
    }

    /// Whether a layer in this state is producing timecode.
    pub open spec fn spec_is_active(self) -> bool {
        self == LayerState::Playing || self == LayerState::Looping
    }

    /// Returns true if this layer is actively producing timecode
    pub fn is_active(&self) -> (r: bool)
        ensures
            r == self.spec_is_active(),
    {
        matches!(self, Self::Playing | Self::Looping)
    }
}

/// SMPTE timecode frame rate.
#[derive(Debug, Clone, Copy, PartialEq, Eq, Hash, Structural, Default)]
pub enum SmpteMode {
    #[default]
    Fps24,
    Fps25,
    Fps29_97,
    Fps30,
}

impl SmpteMode {
    /// The value that the wire value `v` stands for.
    pub open spec fn spec_from_u8(v: u8) -> SmpteMode {
        if v == 24 {
            SmpteMode::Fps24
        } else if v == 25 {
            SmpteMode::Fps25
        } else if v == 29 {
            SmpteMode::Fps29_97
        } else if v == 30 {
            SmpteMode::Fps30
        } else {
            SmpteMode::Fps25
        }
    }

    /// The wire value of this value.
    pub open spec fn code(self) -> u8 {
        match self {
            SmpteMode::Fps24 => 24,
            SmpteMode::Fps25 => 25,
            SmpteMode::Fps29_97 => 29,
            SmpteMode::Fps30 => 30,
        }
    }

    /// The display name of this value.
    pub open spec fn spec_name(self) -> Seq<char> {
        match self {
            SmpteMode::Fps24 => "24fps"@,
            SmpteMode::Fps25 => "25fps"@,
            SmpteMode::Fps29_97 => "29.97fps"@,
            SmpteMode::Fps30 => "30fps"@,
        }
    }

    pub fn from_u8(value: u8) -> (r: Self)
        ensures
            r == Self::spec_from_u8(value),
    {
        match value {
            24 => Self::Fps24,
            25 => Self::Fps25,
            29 => Self::Fps29_97,
            30 => Self::Fps30,
            _ => Self::Fps25,
        }
    }

    /// The wire value of this value.
    pub fn as_u8(self) -> (r: u8)
        ensures
            r == self.code(),
    {
        match self {
            Self::Fps24 => 24,
            Self::Fps25 => 25,
            Self::Fps29_97 => 29,
            Self::Fps30 => 30,
        }
    }

    /// The display name of this value.
    pub fn name(&self) -> (r: &'static str)
        ensures
            r@ == self.spec_name(),
    {
        match self {
            Self::Fps24 => "24fps",
            Self::Fps25 => "25fps",
            Self::Fps29_97 => "29.97fps",
            Self::Fps30 => "30fps",
        }
    }

    /// The frame rate in frames per hundred seconds (29.97 fps is 2997).
    pub open spec fn spec_frames_per_100s(self) -> u32 {
        match self {
            SmpteMode::Fps24 => 2400,
            SmpteMode::Fps25 => 2500,
            SmpteMode::Fps29_97 => 2997,
            SmpteMode::Fps30 => 3000,
        }
    }

    /// The frame rate in frames per hundred seconds (29.97 fps is 2997).
    pub fn frames_per_100s(&self) -> (r: u32)
        ensures
            r == self.spec_frames_per_100s(),
    {
        match self {
            Self::Fps24 => 2400,
            Self::Fps25 => 2500,
            Self::Fps29_97 => 2997,
            Self::Fps30 => 3000,
        }
    }
}

/// Timecode state.
#[derive(Debug, Clone, Copy, PartialEq, Eq, Hash, Structural, Default)]
pub enum TimecodeState {
    #[default]
    Stopped,
    Running,
    ForceResync,
}

impl TimecodeState {
    /// The value that the wire value `v` stands for.
    pub open spec fn spec_from_u8(v: u8) -> TimecodeState {
        if v == 0 {
            TimecodeState::Stopped
        } else if v == 1 {
            TimecodeState::Running
        } else if v == 2 {
            TimecodeState::ForceResync
        } else {
            TimecodeState::Stopped
        }
    }

    /// The wire value of this value.
    pub open spec fn code(self) -> u8 {
        match self {
            TimecodeState::Stopped => 0,
            TimecodeState::Running => 1,
            TimecodeState::ForceResync => 2,
        }
    }

    /// The display name of this value.
    pub open spec fn spec_name(self) -> Seq<char> {
        match self {
            TimecodeState::Stopped => "STOP"@,
            TimecodeState::Running => "RUN"@,
            TimecodeState::ForceResync => "RESYNC"@,
        }
    }

    pub fn from_u8(value: u8) -> (r: Self)
        ensures
            r == Self::spec_from_u8(value),
    {
        match value {
            0 => Self::Stopped,
            1 => Self::Running,
            2 => Self::ForceResync,
            _ => Self::Stopped,
        }
    }

    /// The wire value of this value.
    pub fn as_u8(self) -> (r: u8)
        ensures
            r == self.code(),
    {
        match self {
            Self::Stopped => 0,
            Self::Running => 1,
            Self::ForceResync => 2,
        }
    }

    /// The display name of this value.
    pub fn name(&self) -> (r: &'static str)
        ensures
            r@ == self.spec_name(),
    {
        match self {
            Self::Stopped => "STOP",
            Self::Running => "RUN",
            Self::ForceResync => "RESYNC",
        }
    }
}

/// Node options flags.
#[derive(Debug, Clone, Copy, PartialEq, Eq, Default, Structural)]
pub struct NodeOptions(pub u16);

impl NodeOptions {
    pub const NEED_AUTHENTICATION: u16 = 1;

    pub const SUPPORTS_CONTROL_MESSAGES: u16 = 2;

    pub const SUPPORTS_APP_SPECIFIC_DATA: u16 = 4;

    pub const DO_NOT_DISTURB: u16 = 8;

    /// Whether the flag bits `flag` are set.
    pub open spec fn has(self, flag: u16) -> bool {
        self.0 & flag != 0
    }

    pub fn new() -> (r: Self)
        ensures
            r.0 == 0,
    {
        Self(0)
    }

    pub fn with_control_messages(self) -> (r: Self)
        ensures
            r.0 == self.0 | 2,
    {
        Self(self.0 | Self::SUPPORTS_CONTROL_MESSAGES)
    }

    pub fn with_app_specific_data(self) -> (r: Self)
        ensures
            r.0 == self.0 | 4,
    {
        Self(self.0 | Self::SUPPORTS_APP_SPECIFIC_DATA)
    }

    pub fn needs_auth(&self) -> (r: bool)
        ensures
            r == self.has(1),
    {
        self.0 & Self::NEED_AUTHENTICATION != 0
    }

    pub fn supports_control(&self) -> (r: bool)
        ensures
            r == self.has(2),
    {
        self.0 & Self::SUPPORTS_CONTROL_MESSAGES != 0
    }

    pub fn supports_app_data(&self) -> (r: bool)
        ensures
            r == self.has(4),
    {
        self.0 & Self::SUPPORTS_APP_SPECIFIC_DATA != 0
    }

    pub fn do_not_disturb(&self) -> (r: bool)
        ensures
            r == self.has(8),
    {
        self.0 & Self::DO_NOT_DISTURB != 0
    }
}

/// Setting the control-messages or application-data flag makes the matching
/// query true and leaves the other flags as they were.
pub proof fn lemma_option_flags(o: NodeOptions)
    ensures
        NodeOptions(o.0 | 2).has(2),
        NodeOptions(o.0 | 4).has(4),
        NodeOptions(o.0 | 2).has(1) == o.has(1),
        NodeOptions(o.0 | 2).has(4) == o.has(4),
        NodeOptions(o.0 | 2).has(8) == o.has(8),
        NodeOptions(o.0 | 4).has(1) == o.has(1),
        NodeOptions(o.0 | 4).has(2) == o.has(2),
        NodeOptions(o.0 | 4).has(8) == o.has(8),
        !NodeOptions(0).has(1),
        !NodeOptions(0).has(2),
        !NodeOptions(0).has(4),
        !NodeOptions(0).has(8),
{
    let x = o.0;
    assert((x | 2) & 2 != 0) by (bit_vector);
    assert((x | 4) & 4 != 0) by (bit_vector);
    assert(((x | 2) & 1 != 0) == (x & 1 != 0)) by (bit_vector);
    assert(((x | 2) & 4 != 0) == (x & 4 != 0)) by (bit_vector);
    assert(((x | 2) & 8 != 0) == (x & 8 != 0)) by (bit_vector);
    assert(((x | 4) & 1 != 0) == (x & 1 != 0)) by (bit_vector);
    assert(((x | 4) & 2 != 0) == (x & 2 != 0)) by (bit_vector);
    assert(((x | 4) & 8 != 0) == (x & 8 != 0)) by (bit_vector);
    assert(0u16 & 1 == 0) by (bit_vector);
    assert(0u16 & 2 == 0) by (bit_vector);
    assert(0u16 & 4 == 0) by (bit_vector);
    assert(0u16 & 8 == 0) by (bit_vector);
}

/// Layer identifier for the 8 TCNet layers.
#[derive(Debug, Clone, Copy, PartialEq, Eq, Hash, Default, Structural)]
pub enum Layer {
    #[default]
    Layer1,
    Layer2,
    Layer3,
    Layer4,
    LayerA,
    LayerB,
    /// Master
    LayerM,
    LayerC,
}

impl Layer {
    /// The layer at position `i` of the eight layers.
    pub open spec fn spec_from_index(i: int) -> Option<Layer> {
        if i == 0 {
            Some(Layer::Layer1)
        } else if i == 1 {
            Some(Layer::Layer2)
        } else if i == 2 {
            Some(Layer::Layer3)
        } else if i == 3 {
            Some(Layer::Layer4)
        } else if i == 4 {
            Some(Layer::LayerA)
        } else if i == 5 {
            Some(Layer::LayerB)
        } else if i == 6 {
            Some(Layer::LayerM)
        } else if i == 7 {
            Some(Layer::LayerC)
        } else {
            None
        }
    }

    /// The position of this layer among the eight layers.
    pub open spec fn spec_index(self) -> int {
        match self {
            Layer::Layer1 => 0,
            Layer::Layer2 => 1,
            Layer::Layer3 => 2,
            Layer::Layer4 => 3,
            Layer::LayerA => 4,
            Layer::LayerB => 5,
            Layer::LayerM => 6,
            Layer::LayerC => 7,
        }
    }

    /// The wire number of this layer, 1 to 8.
    pub open spec fn code(self) -> u8 {
        match self {
            Layer::Layer1 => 1,
            Layer::Layer2 => 2,
            Layer::Layer3 => 3,
            Layer::Layer4 => 4,
            Layer::LayerA => 5,
            Layer::LayerB => 6,
            Layer::LayerM => 7,
            Layer::LayerC => 8,
        }
    }

    /// The layer at position `i`, or layer 1 where `i` names none.
    pub open spec fn at_or_first(i: int) -> Layer {
        match Layer::spec_from_index(i) {
            Some(l) => l,
            None => Layer::Layer1,
        }
    }

    /// The short display name of a layer.
    pub open spec fn spec_name(self) -> Seq<char> {
        match self {
            Layer::Layer1 => "L1"@,
            Layer::Layer2 => "L2"@,
            Layer::Layer3 => "L3"@,
            Layer::Layer4 => "L4"@,
            Layer::LayerA => "LA"@,
            Layer::LayerB => "LB"@,
            Layer::LayerM => "LM"@,
            Layer::LayerC => "LC"@,
        }
    }

    pub fn from_index(index: usize) -> (r: Option<Self>)
        ensures
            r == Self::spec_from_index(index as int),
    {
        match index {
            0 => Some(Self::Layer1),
            1 => Some(Self::Layer2),
            2 => Some(Self::Layer3),
            3 => Some(Self::Layer4),
            4 => Some(Self::LayerA),
            5 => Some(Self::LayerB),
            6 => Some(Self::LayerM),
            7 => Some(Self::LayerC),
            _ => None,
        }
    }

    /// The layer at position `index`, or layer 1 where `index` names none.
    pub fn from_index_or_first(index: usize) -> (r: Self)
        ensures
            r == Self::at_or_first(index as int),
    {
        match Self::from_index(index) {
            Some(l) => l,
            None => Self::Layer1,
        }
    }

    pub fn index(&self) -> (r: usize)
        ensures
            r == self.spec_index(),
    {
        match self {
            Self::Layer1 => 0,
            Self::Layer2 => 1,
            Self::Layer3 => 2,
            Self::Layer4 => 3,
            Self::LayerA => 4,
            Self::LayerB => 5,
            Self::LayerM => 6,
            Self::LayerC => 7,
        }
    }

    /// The wire number of this layer, 1 to 8.
    pub fn as_u8(self) -> (r: u8)
        ensures
            r == self.code(),
            r == self.spec_index() + 1,
    {
        match self {
            Self::Layer1 => 1,
            Self::Layer2 => 2,
            Self::Layer3 => 3,
            Self::Layer4 => 4,
            Self::LayerA => 5,
            Self::LayerB => 6,
            Self::LayerM => 7,
            Self::LayerC => 8,
        }
    }

    pub fn all() -> (r: [Layer; 8])
        ensures
            forall|i: int| 0 <= i < 8 ==> Layer::spec_from_index(i) == Some(#[trigger] r[i]),
    {
        [
            Self::Layer1,
            Self::Layer2,
            Self::Layer3,
            Self::Layer4,
            Self::LayerA,
            Self::LayerB,
            Self::LayerM,
            Self::LayerC,
        ]
    }

    /// The short display name of this layer.
    pub fn name(&self) -> (r: &'static str)
        ensures
            r@ == self.spec_name(),
    {
        match self {
            Self::Layer1 => "L1",
            Self::Layer2 => "L2",
            Self::Layer3 => "L3",
            Self::Layer4 => "L4",
            Self::LayerA => "LA",
            Self::LayerB => "LB",
            Self::LayerM => "LM",
            Self::LayerC => "LC",
        }
    }
}

/// Positions and layers correspond one to one: every layer sits at a position
/// below eight, and the layer at a layer's position is that layer.
pub proof fn lemma_layer_index_roundtrip(l: Layer, i: int)
    ensures
        0 <= l.spec_index() < 8,
        l.code() == l.spec_index() + 1,
        Layer::spec_from_index(l.spec_index()) == Some(l),
        0 <= i < 8 ==> Layer::spec_from_index(i).unwrap().spec_index() == i,
        (i < 0 || i >= 8) ==> Layer::spec_from_index(i) is None,
{
}

/// Reading a message type back from its wire value gives the same type.
pub proof fn lemma_message_type_roundtrip(t: MessageType)
    ensures
        MessageType::spec_from_u8(t.code()) == Some(t),
{
}

/// SMPTE Timecode value.
#[derive(Debug, Clone, Copy, PartialEq, Eq, Default, Structural)]
pub struct Timecode {
    pub hours: u8,
    pub minutes: u8,
    pub seconds: u8,
    pub frames: u8,
}

impl Timecode {
    /// The timecode reached after `millis` milliseconds at the frame rate of
    /// `mode`; hours are kept modulo 256, as a byte holds them.
    pub open spec fn spec_from_millis(millis: u32, mode: SmpteMode) -> Timecode {
        let total_seconds = millis / 1000;
        let remaining = millis % 1000;
        Timecode {
            hours: (total_seconds / 3600) as u8,
            minutes: ((total_seconds % 3600) / 60) as u8,
            seconds: (total_seconds % 60) as u8,
            frames: ((remaining as int * mode.spec_frames_per_100s() as int) / 100000) as u8,
        }
    }

    /// The timecode as text, `HH:MM:SS:FF`, each field at least two digits.
    pub open spec fn text(self) -> Seq<char> {
        decimal_padded(self.hours as nat, 2) + ":"@ + decimal_padded(self.minutes as nat, 2) + ":"@
            + decimal_padded(self.seconds as nat, 2) + ":"@ + decimal_padded(self.frames as nat, 2)
    }

    /// Formats the timecode as `HH:MM:SS:FF`.
    pub fn to_text(&self) -> (r: String)
        ensures
            r@ == self.text(),
    {
        let mut out: Vec<char> = Vec::new();
        push_decimal(&mut out, self.hours as u32, 2);
        out.push(':');
        push_decimal(&mut out, self.minutes as u32, 2);
        out.push(':');
        push_decimal(&mut out, self.seconds as u32, 2);
        out.push(':');
        push_decimal(&mut out, self.frames as u32, 2);
        proof {
            reveal_strlit(":");
        }
        assert(out@ =~= self.text());
        string_from_chars(&out)
    }

    pub fn new(hours: u8, minutes: u8, seconds: u8, frames: u8) -> (r: Self)
        ensures
            r == (Timecode { hours, minutes, seconds, frames }),
    {
        Self { hours, minutes, seconds, frames }
    }

    /// Create timecode from milliseconds and frame rate
    pub fn from_millis(millis: u32, mode: SmpteMode) -> (r: Self)
        ensures
            r == Self::spec_from_millis(millis, mode),
            r.minutes < 60,
            r.seconds < 60,
            r.frames < 30,
    {
        let total_seconds = millis / 1000;
        let remaining_millis = millis % 1000;
        let hours = (total_seconds / 3600) as u8;
        let minutes = ((total_seconds % 3600) / 60) as u8;
        let seconds = (total_seconds % 60) as u8;
        let rate = mode.frames_per_100s();
        assert(remaining_millis * rate <= 999 * 3000) by (nonlinear_arith)
            requires
                remaining_millis < 1000,
                rate <= 3000,
        ;
        let frames = ((remaining_millis * rate) / 100000) as u8;
        Self { hours, minutes, seconds, frames }
    }
}

/// Node types travel as the TCNet values 1 (Auto), 2 (Master), 4 (Slave) and
/// 8 (Repeater), one bit each: exactly these bytes decode to a node type, and
/// each node type is written as the byte it is decoded from.
pub proof fn lemma_node_type_values(v: u8)
    ensures
        NodeType::spec_from_u8(v) is Some <==> (v == 1 || v == 2 || v == 4 || v == 8),
        NodeType::spec_from_u8(v) matches Some(t) ==> t.code() == v,
        NodeType::spec_from_u8(1) == Some(NodeType::Auto),
        NodeType::spec_from_u8(2) == Some(NodeType::Master),
        NodeType::spec_from_u8(4) == Some(NodeType::Slave),
        NodeType::spec_from_u8(8) == Some(NodeType::Repeater),
{
}

/// Message types travel as their TCNet values: exactly the bytes 2, 3, 5, 10,
/// 13, 20, 30, 101, 128, 132, 200, 204 and 254 decode to a message type, each
/// is written as the byte it is decoded from, and Opt-IN, Opt-OUT, Status,
/// Application Data, Data and Time are 2, 3, 5, 30, 200 and 254.
pub proof fn lemma_message_type_values(v: u8)
    ensures
        MessageType::spec_from_u8(v) is Some <==> (v == 2 || v == 3 || v == 5 || v == 10 || v == 13
            || v == 20 || v == 30 || v == 101 || v == 128 || v == 132 || v == 200 || v == 204 || v
            == 254),
        MessageType::spec_from_u8(v) matches Some(t) ==> t.code() == v,
        MessageType::spec_from_u8(2) == Some(MessageType::OptIn),
        MessageType::spec_from_u8(3) == Some(MessageType::OptOut),
        MessageType::spec_from_u8(5) == Some(MessageType::Status),
        MessageType::spec_from_u8(13) == Some(MessageType::ErrorNotification),
        MessageType::spec_from_u8(20) == Some(MessageType::Request),
        MessageType::spec_from_u8(30) == Some(MessageType::ApplicationData),
        MessageType::spec_from_u8(200) == Some(MessageType::Data),
        MessageType::spec_from_u8(254) == Some(MessageType::Time),
{
}

/// Layer states travel as their TCNet values: a state byte of 0 or 3 to 11
/// decodes to the state written as that byte (Idle 0, Playing 3, Looping 4,
/// Paused 5, Stopped 6, Cue button down 7, Platter down 8, Fast forward 9,
/// Fast reverse 10, Hold 11); any other byte reads as Idle.
pub proof fn lemma_layer_state_values(v: u8)
    ensures
        (v == 0 || (3 <= v && v <= 11)) ==> LayerState::spec_from_u8(v).code() == v,
        !(v == 0 || (3 <= v && v <= 11)) ==> LayerState::spec_from_u8(v) == LayerState::Idle,
        LayerState::spec_from_u8(0) == LayerState::Idle,
        LayerState::spec_from_u8(3) == LayerState::Playing,
        LayerState::spec_from_u8(4) == LayerState::Looping,
        LayerState::spec_from_u8(5) == LayerState::Paused,
        LayerState::spec_from_u8(6) == LayerState::Stopped,
        LayerState::spec_from_u8(7) == LayerState::CueButtonDown,
        LayerState::spec_from_u8(8) == LayerState::PlatterDown,
        LayerState::spec_from_u8(9) == LayerState::FastForward,
        LayerState::spec_from_u8(10) == LayerState::FastReverse,
        LayerState::spec_from_u8(11) == LayerState::Hold,
{
}

/// SMPTE modes travel as their whole frame rates: the bytes 24, 25, 29 and 30
/// decode to the mode written as that byte, any other byte reads as 25 fps,
/// and a mode's byte is its frame rate rounded down.
pub proof fn lemma_smpte_mode_values(v: u8, m: SmpteMode)
    ensures
        (v == 24 || v == 25 || v == 29 || v == 30) ==> SmpteMode::spec_from_u8(v).code() == v,
        !(v == 24 || v == 25 || v == 29 || v == 30) ==> SmpteMode::spec_from_u8(v)
            == SmpteMode::Fps25,
        m.code() == m.spec_frames_per_100s() / 100,
        SmpteMode::spec_from_u8(29) == SmpteMode::Fps29_97,
{
}

/// Timecode states travel as 0 (stopped), 1 (running) and 2 (forced
/// resync); any other byte reads as stopped.
pub proof fn lemma_timecode_state_values(v: u8)
    ensures
        v <= 2 ==> TimecodeState::spec_from_u8(v).code() == v,
        v > 2 ==> TimecodeState::spec_from_u8(v) == TimecodeState::Stopped,
        TimecodeState::spec_from_u8(1) == TimecodeState::Running,
        TimecodeState::spec_from_u8(2) == TimecodeState::ForceResync,
{
}

} // verus!
