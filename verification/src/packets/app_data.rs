//! Application Specific Data Packet (Type 30).
//!
//! These packets are used for application-specific communication between TCNet nodes.
//! Resolume Arena uses these to subscribe to mixer data updates.
use vstd::prelude::*;
use vstd::string::StringSliceAdditionalSpecFns;
use crate::bytes::{le32, push_bytes, push_u32_le};
use crate::header::{name_field, ManagementHeader};
use crate::types::{
    MessageType, NodeOptions, NodeType, PROTOCOL_VERSION_MAJOR, PROTOCOL_VERSION_MINOR,
};

verus! {

/// Signature that Resolume puts in its application data packets.
pub const RESOLUME_SIGNATURE: u32 = 0x0abc0000u32;

/// Application Specific Data packet.
#[derive(Debug, Clone)]
pub struct AppDataPacket {
    /// Common management header
    pub header: ManagementHeader,
    /// Data Identifier 1 (byte 24)
    pub data_id1: u8,
    /// Data Identifier 2 (byte 25)
    pub data_id2: u8,
    /// Data size
    pub data_size: u32,
    /// Total packets
    pub total_packets: u32,
    /// Packet number
    pub packet_no: u32,
    /// Packet signature
    pub signature: u32,
    /// Application data
    pub data: Vec<u8>,
}

/// The first payload of the Resolume-style subscription pair.
pub open spec fn resolume_payload_1() -> Seq<u8> {
    seq![
        0x00u8, 0x00, 0xcf, 0xff, 0x00, 0x00, 0x00, 0x00, 0x00, 0x00, 0x00, 0x00, 0x00, 0x00,
        0x00, 0x00, 0x00, 0x00, 0x00, 0x00,
    ]
}

/// The second payload of the Resolume-style subscription pair.
pub open spec fn resolume_payload_2() -> Seq<u8> {
    seq![
        0x02u8, 0x00, 0x99, 0xff, 0x43, 0x47, 0x97, 0xa4, 0x1e, 0x00, 0x62, 0xc8, 0x0b, 0x48,
        0xc8, 0x5a, 0x96, 0x96, 0xa0, 0xfc,
    ]
}

impl AppDataPacket {
    /// The bytes that encode this packet: header, the two data identifiers,
    /// four little-endian counters and the payload.
    pub open spec fn spec_bytes(self) -> Seq<u8> {
        self.header.spec_bytes() + seq![self.data_id1, self.data_id2] + le32(self.data_size)
            + le32(self.total_packets) + le32(self.packet_no) + le32(self.signature) + self.data@
    }

    /// Whether this packet is the single-part application data packet with the
    /// given fields.
    pub open spec fn is_single_part(
        self,
        node_id: u16,
        name_bytes: Seq<u8>,
        sequence: u8,
        node_type: NodeType,
        node_options: NodeOptions,
        timestamp_us: u32,
        data_id1: u8,
        data_id2: u8,
        signature: u32,
        data: Seq<u8>,
    ) -> bool {
        &&& self.header.node_id == node_id
        &&& self.header.version_major == PROTOCOL_VERSION_MAJOR
        &&& self.header.version_minor == PROTOCOL_VERSION_MINOR
        &&& self.header.message_type == MessageType::ApplicationData
        &&& self.header.node_name@ == name_field(name_bytes)
        &&& self.header.sequence == sequence
        &&& self.header.node_type == node_type
        &&& self.header.node_options == node_options
        &&& self.header.timestamp_us == timestamp_us
        &&& self.data_id1 == data_id1
        &&& self.data_id2 == data_id2
        &&& self.data_size == data.len() as u32
        &&& self.total_packets == 1
        &&& self.packet_no == 1
        &&& self.signature == signature
        &&& self.data@ == data
    }

    /// Create a new Application Specific Data packet.
    pub fn new(
        node_id: u16,
        node_name: &str,
        sequence: u8,
        node_type: NodeType,
        node_options: NodeOptions,
        timestamp_us: u32,
        data_id1: u8,
        data_id2: u8,
        data: Vec<u8>,
    ) -> (r: Self)
        ensures
            r.is_single_part(
                node_id,
                node_name.spec_bytes(),
                sequence,
                node_type,
                node_options,
                timestamp_us,
                data_id1,
                data_id2,
                0,
                data@,
            ),
    {
        Self::new_with_signature(
            node_id,
            node_name,
            sequence,
            node_type,
            node_options,
            timestamp_us,
            data_id1,
            data_id2,
            0,
            data,
        )
    }

    /// Create a new Application Specific Data packet with custom signature.
    pub fn new_with_signature(
        node_id: u16,
        node_name: &str,
        sequence: u8,
        node_type: NodeType,
        node_options: NodeOptions,
        timestamp_us: u32,
        data_id1: u8,
        data_id2: u8,
        signature: u32,
        data: Vec<u8>,
    ) -> (r: Self)
        ensures
            r.is_single_part(
                node_id,
                node_name.spec_bytes(),
                sequence,
                node_type,
                node_options,
                timestamp_us,
                data_id1,
                data_id2,
                signature,
                data@,
            ),
    {
        let header = ManagementHeader::new(
            node_id,
            MessageType::ApplicationData,
            node_name,
            sequence,
            node_type,
            node_options,
            timestamp_us,
        );
        let data_size = data.len() as u32;
        Self { header, data_id1, data_id2, data_size, total_packets: 1, packet_no: 1, signature, data }
    }

    /// Create Resolume-style subscription packets.
    /// Resolume sends TWO app data packets to subscribe to mixer updates.
    /// Returns a Vec of two packets that should both be sent.
    pub fn resolume_style_pair(
        node_id: u16,
        node_name: &str,
        sequence: u8,
        node_type: NodeType,
        node_options: NodeOptions,
        timestamp_us: u32,
    ) -> (r: Vec<Self>)
        ensures
            r@.len() == 2,
            r@[0].is_single_part(
                node_id,
                node_name.spec_bytes(),
                sequence,
                node_type,
                node_options,
                timestamp_us,
                0xff,
                0xff,
                RESOLUME_SIGNATURE,
                resolume_payload_1(),
            ),
            r@[1].is_single_part(
                node_id,
                node_name.spec_bytes(),
                (if sequence == 255 {
                    0
                } else {
                    sequence + 1
                }) as u8,
                node_type,
                node_options,
                timestamp_us,
                0xff,
                0xff,
                RESOLUME_SIGNATURE,
                resolume_payload_2(),
            ),
    {
        // Signature used by Resolume: 0x0abc0000 (little endian: 0000bc0a)
        let signature = RESOLUME_SIGNATURE;
        // Packet 1 data (20 bytes)
        let data1 = vec![
            0x00u8, 0x00, 0xcf, 0xff, 0x00, 0x00, 0x00, 0x00, 0x00, 0x00, 0x00, 0x00, 0x00, 0x00,
            0x00, 0x00, 0x00, 0x00, 0x00, 0x00,
        ];
        // Packet 2 data (20 bytes): 020099ff434797a41e0062c80b48c85a9696a0fc
        let data2 = vec![
            0x02u8, 0x00, 0x99, 0xff, 0x43, 0x47, 0x97, 0xa4, 0x1e, 0x00, 0x62, 0xc8, 0x0b, 0x48,
            0xc8, 0x5a, 0x96, 0x96, 0xa0, 0xfc,
        ];
        assert(data1@ =~= resolume_payload_1());
        assert(data2@ =~= resolume_payload_2());
        let next = sequence.wrapping_add(1);
        let first = Self::new_with_signature(
            node_id,
            node_name,
            sequence,
            node_type,
            node_options,
            timestamp_us,
            0xff,
            0xff,
            signature,
            data1,
        );
        let second = Self::new_with_signature(
            node_id,
            node_name,
            next,
            node_type,
            node_options,
            timestamp_us,
            0xff,
            0xff,
            signature,
            data2,
        );
        let mut out: Vec<Self> = Vec::new();
        out.push(first);
        out.push(second);
        out
    }

    /// Serialize the packet to bytes.
    pub fn to_bytes(&self) -> (r: Vec<u8>)
        ensures
            r@ == self.spec_bytes(),
    {
        let mut buf: Vec<u8> = Vec::new();
        let h = self.header.to_bytes();
        push_bytes(&mut buf, h.as_slice());
        buf.push(self.data_id1);
        buf.push(self.data_id2);
        push_u32_le(&mut buf, self.data_size);
        push_u32_le(&mut buf, self.total_packets);
        push_u32_le(&mut buf, self.packet_no);
        push_u32_le(&mut buf, self.signature);
        push_bytes(&mut buf, self.data.as_slice());
        assert(buf@ =~= self.spec_bytes());
        buf
    }
}

} // verus!
