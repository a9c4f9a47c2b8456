//! Error types for the TCNet protocol.
use vstd::prelude::*;

verus! {

#[verifier::external_type_specification]
#[verifier::external_body]
pub struct ExIoError(std::io::Error);

/// Errors that can occur when parsing or handling TCNet packets.
#[derive(Debug)]
pub enum TcNetError {
    /// Packet is too short to contain required data
    PacketTooShort { expected: usize, actual: usize },
    /// Invalid TCNet header (should be "TCN")
    InvalidHeader([u8; 3]),
    /// Unknown or unsupported message type
    UnknownMessageType(u8),
    /// Unknown node type
    UnknownNodeType(u8),
    /// Invalid node name (not valid ASCII)
    InvalidNodeName(String),
    /// IO error during network operations
    Io(std::io::Error),
    /// Failed to get MAC address
    MacAddress(String),
    /// Binary parsing error
    ParseError(String),
}

/// Result type for TCNet operations.
pub type Result<T> = std::result::Result<T, TcNetError>;

} // verus!
