//! The companion protocol: frame types and the frame parser.

pub mod parser;

use vstd::prelude::*;

verus! {

/// The type of a frame sent by the companion device, given by its first byte.
#[derive(Debug, Clone, Copy, PartialEq, Eq, Structural)]
pub enum PacketType {
    Success,
    Error,
    ContactStart,
    Contact,
    ContactEnd,
    SelfInfo,
    Sent,
    RxLogData,
}

/// The byte that announces each frame type on the wire.
pub open spec fn packet_code(t: PacketType) -> u8 {
    match t {
        PacketType::Success => 0x00,
        PacketType::Error => 0x01,
        PacketType::ContactStart => 0x02,
        PacketType::Contact => 0x03,
        PacketType::ContactEnd => 0x04,
        PacketType::SelfInfo => 0x05,
        PacketType::Sent => 0x06,
        PacketType::RxLogData => 0x88,
    }
}

/// The frame type announced by a byte, if the byte announces one.
pub open spec fn packet_type_of(b: u8) -> Option<PacketType> {
    if b == 0x00 {
        Some(PacketType::Success)
    } else if b == 0x01 {
        Some(PacketType::Error)
    } else if b == 0x02 {
        Some(PacketType::ContactStart)
    } else if b == 0x03 {
        Some(PacketType::Contact)
    } else if b == 0x04 {
        Some(PacketType::ContactEnd)
    } else if b == 0x05 {
        Some(PacketType::SelfInfo)
    } else if b == 0x06 {
        Some(PacketType::Sent)
    } else if b == 0x88 {
        Some(PacketType::RxLogData)
    } else {
        None
    }
}

impl PacketType {
    /// The wire byte of this frame type.
    pub fn as_u8(self) -> (b: u8)
        ensures
            b == packet_code(self),
    {
        match self {
            PacketType::Success => 0x00,
            PacketType::Error => 0x01,
            PacketType::ContactStart => 0x02,
            PacketType::Contact => 0x03,
            PacketType::ContactEnd => 0x04,
            PacketType::SelfInfo => 0x05,
            PacketType::Sent => 0x06,
            PacketType::RxLogData => 0x88,
        }
    }

    /// The frame type announced by `b`, or `None` for a byte that announces none.
    pub fn from_u8(b: u8) -> (t: Option<PacketType>)
        ensures
            t == packet_type_of(b),
    {
        match b {
            0x00 => Some(PacketType::Success),
            0x01 => Some(PacketType::Error),
            0x02 => Some(PacketType::ContactStart),
            0x03 => Some(PacketType::Contact),
            0x04 => Some(PacketType::ContactEnd),
            0x05 => Some(PacketType::SelfInfo),
            0x06 => Some(PacketType::Sent),
            0x88 => Some(PacketType::RxLogData),
            _ => None,
        }
    }
}

/// Decoding the byte of a frame type gives the frame type back, and a byte
/// decodes to a frame type only if it is that type's byte.
pub proof fn lemma_packet_code_roundtrip(t: PacketType, b: u8)
    ensures
        packet_type_of(packet_code(t)) == Some(t),
        packet_type_of(b) == Some(t) ==> packet_code(t) == b,
{
}

} // verus!
