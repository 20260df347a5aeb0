//! The message kinds of the protocol and the fixed game-packet header.

use vstd::prelude::*;

verus! {

/// Why a byte string could not be decoded.
#[derive(Clone, Copy, Debug, PartialEq, Eq, Structural)]
pub enum DecodeError {
    /// Fewer bytes than the fixed header or the envelope tag needs.
    Truncated,
    /// A record announces more bytes than the buffer holds.
    RecordOverrun,
    /// A record carries a type tag that the format does not know.
    UnknownTag,
    /// The announced number of records differs from the number present.
    CountMismatch,
    /// A call lacks an argument, or holds one of another type.
    BadArgument,
}

/// The kind of an outer message, given by the envelope's 32-bit tag.
#[derive(Clone, Copy, Debug, PartialEq, Eq, Structural)]
pub enum EPacketType {
    NetMessageUnknown,
    NetMessageServerHello,
    NetMessageGenericText,
    NetMessageGameMessage,
    NetMessageGamePacket,
    NetMessageError,
    NetMessageTrack,
    NetMessageClientLogRequest,
    NetMessageClientLogResponse,
    NetMessageMax,
}

impl EPacketType {
    /// The kind that a tag stands for; tags beyond the known range are
    /// `NetMessageUnknown`.
    pub open spec fn spec_from_u32(tag: u32) -> EPacketType {
        if tag == 1 {
            EPacketType::NetMessageServerHello
        } else if tag == 2 {
            EPacketType::NetMessageGenericText
        } else if tag == 3 {
            EPacketType::NetMessageGameMessage
        } else if tag == 4 {
            EPacketType::NetMessageGamePacket
        } else if tag == 5 {
            EPacketType::NetMessageError
        } else if tag == 6 {
            EPacketType::NetMessageTrack
        } else if tag == 7 {
            EPacketType::NetMessageClientLogRequest
        } else if tag == 8 {
            EPacketType::NetMessageClientLogResponse
        } else if tag == 9 {
            EPacketType::NetMessageMax
        } else {
            EPacketType::NetMessageUnknown
        }
    }

    /// The tag written for a kind.
    pub open spec fn spec_to_u32(self) -> u32 {
        match self {
            EPacketType::NetMessageUnknown => 0,
            EPacketType::NetMessageServerHello => 1,
            EPacketType::NetMessageGenericText => 2,
            EPacketType::NetMessageGameMessage => 3,
            EPacketType::NetMessageGamePacket => 4,
            EPacketType::NetMessageError => 5,
            EPacketType::NetMessageTrack => 6,
            EPacketType::NetMessageClientLogRequest => 7,
            EPacketType::NetMessageClientLogResponse => 8,
            EPacketType::NetMessageMax => 9,
        }
    }

    pub fn from_u32(tag: u32) -> (r: EPacketType)
        ensures
            r == Self::spec_from_u32(tag),
    {
        if tag == 1 {
            EPacketType::NetMessageServerHello
        } else if tag == 2 {
            EPacketType::NetMessageGenericText
        } else if tag == 3 {
            EPacketType::NetMessageGameMessage
        } else if tag == 4 {
            EPacketType::NetMessageGamePacket
        } else if tag == 5 {
            EPacketType::NetMessageError
        } else if tag == 6 {
            EPacketType::NetMessageTrack
        } else if tag == 7 {
            EPacketType::NetMessageClientLogRequest
        } else if tag == 8 {
            EPacketType::NetMessageClientLogResponse
        } else if tag == 9 {
            EPacketType::NetMessageMax
        } else {
            EPacketType::NetMessageUnknown
        }
    }

    pub fn to_u32(self) -> (r: u32)
        ensures
            r == self.spec_to_u32(),
    {
        match self {
            EPacketType::NetMessageUnknown => 0,
            EPacketType::NetMessageServerHello => 1,
            EPacketType::NetMessageGenericText => 2,
            EPacketType::NetMessageGameMessage => 3,
            EPacketType::NetMessageGamePacket => 4,
            EPacketType::NetMessageError => 5,
            EPacketType::NetMessageTrack => 6,
            EPacketType::NetMessageClientLogRequest => 7,
            EPacketType::NetMessageClientLogResponse => 8,
            EPacketType::NetMessageMax => 9,
        }
    }
}

/// The kind of a game packet, given by the first byte of its header. A byte
/// that names no kind known here is kept as it came.
#[derive(Clone, Copy, Debug, PartialEq, Eq, Structural)]
pub enum ETankPacketType {
    NetGamePacketState,
    NetGamePacketCallFunction,
    NetGamePacketUpdateStatus,
    NetGamePacketTileChangeRequest,
    NetGamePacketSendMapData,
    NetGamePacketSendTileUpdateData,
    NetGamePacketSendTileUpdateDataMultiple,
    NetGamePacketTileActivateRequest,
    NetGamePacketTileApplyDamage,
    NetGamePacketSendInventoryState,
    NetGamePacketPingReply,
    NetGamePacketPingRequest,
    Other(u8),
}

impl ETankPacketType {
    pub open spec fn spec_from_u8(b: u8) -> ETankPacketType {
        if b == 0 {
            ETankPacketType::NetGamePacketState
        } else if b == 1 {
            ETankPacketType::NetGamePacketCallFunction
        } else if b == 2 {
            ETankPacketType::NetGamePacketUpdateStatus
        } else if b == 3 {
            ETankPacketType::NetGamePacketTileChangeRequest
        } else if b == 4 {
            ETankPacketType::NetGamePacketSendMapData
        } else if b == 5 {
            ETankPacketType::NetGamePacketSendTileUpdateData
        } else if b == 6 {
            ETankPacketType::NetGamePacketSendTileUpdateDataMultiple
        } else if b == 7 {
            ETankPacketType::NetGamePacketTileActivateRequest
        } else if b == 8 {
            ETankPacketType::NetGamePacketTileApplyDamage
        } else if b == 9 {
            ETankPacketType::NetGamePacketSendInventoryState
        } else if b == 21 {
            ETankPacketType::NetGamePacketPingReply
        } else if b == 22 {
            ETankPacketType::NetGamePacketPingRequest
        } else {
            ETankPacketType::Other(b)
        }
    }

    pub open spec fn spec_to_u8(self) -> u8 {
        match self {
            ETankPacketType::NetGamePacketState => 0,
            ETankPacketType::NetGamePacketCallFunction => 1,
            ETankPacketType::NetGamePacketUpdateStatus => 2,
            ETankPacketType::NetGamePacketTileChangeRequest => 3,
            ETankPacketType::NetGamePacketSendMapData => 4,
            ETankPacketType::NetGamePacketSendTileUpdateData => 5,
            ETankPacketType::NetGamePacketSendTileUpdateDataMultiple => 6,
            ETankPacketType::NetGamePacketTileActivateRequest => 7,
            ETankPacketType::NetGamePacketTileApplyDamage => 8,
            ETankPacketType::NetGamePacketSendInventoryState => 9,
            ETankPacketType::NetGamePacketPingReply => 21,
            ETankPacketType::NetGamePacketPingRequest => 22,
            ETankPacketType::Other(b) => b,
        }
    }

    pub fn from_u8(b: u8) -> (r: ETankPacketType)
        ensures
            r == Self::spec_from_u8(b),
    {
        if b == 0 {
            ETankPacketType::NetGamePacketState
        } else if b == 1 {
            ETankPacketType::NetGamePacketCallFunction
        } else if b == 2 {
            ETankPacketType::NetGamePacketUpdateStatus
        } else if b == 3 {
            ETankPacketType::NetGamePacketTileChangeRequest
        } else if b == 4 {
            ETankPacketType::NetGamePacketSendMapData
        } else if b == 5 {
            ETankPacketType::NetGamePacketSendTileUpdateData
        } else if b == 6 {
            ETankPacketType::NetGamePacketSendTileUpdateDataMultiple
        } else if b == 7 {
            ETankPacketType::NetGamePacketTileActivateRequest
        } else if b == 8 {
            ETankPacketType::NetGamePacketTileApplyDamage
        } else if b == 9 {
            ETankPacketType::NetGamePacketSendInventoryState
        } else if b == 21 {
            ETankPacketType::NetGamePacketPingReply
        } else if b == 22 {
            ETankPacketType::NetGamePacketPingRequest
        } else {
            ETankPacketType::Other(b)
        }
    }

    pub fn to_u8(self) -> (r: u8)
        ensures
            r == self.spec_to_u8(),
    {
        match self {
            ETankPacketType::NetGamePacketState => 0,
            ETankPacketType::NetGamePacketCallFunction => 1,
            ETankPacketType::NetGamePacketUpdateStatus => 2,
            ETankPacketType::NetGamePacketTileChangeRequest => 3,
            ETankPacketType::NetGamePacketSendMapData => 4,
            ETankPacketType::NetGamePacketSendTileUpdateData => 5,
            ETankPacketType::NetGamePacketSendTileUpdateDataMultiple => 6,
            ETankPacketType::NetGamePacketTileActivateRequest => 7,
            ETankPacketType::NetGamePacketTileApplyDamage => 8,
            ETankPacketType::NetGamePacketSendInventoryState => 9,
            ETankPacketType::NetGamePacketPingReply => 21,
            ETankPacketType::NetGamePacketPingRequest => 22,
            ETankPacketType::Other(b) => b,
        }
    }

    /// A kind read from a byte writes that byte again.
    pub proof fn lemma_from_to(b: u8)
        ensures
            Self::spec_from_u8(b).spec_to_u8() == b,
    {
    }
}

/// The fixed 56-byte header of a game packet. The five float fields hold
/// IEEE-754 bit patterns.
#[derive(Clone, Copy, Debug, PartialEq, Eq, Structural)]
pub struct TankPacketType {
    pub packet_type: ETankPacketType,
    pub unk1: u8,
    pub unk2: u8,
    pub unk3: u8,
    pub net_id: u32,
    pub unk4: u32,
    pub flags: u32,
    pub unk6: u32,
    pub value: u32,
    pub vector_x: u32,
    pub vector_y: u32,
    pub vector_x2: u32,
    pub vector_y2: u32,
    pub unk12: u32,
    pub int_x: i32,
    pub int_y: i32,
    pub extended_data_length: u32,
}

impl TankPacketType {
    /// The header with every field zero and the kind of byte zero.
    pub open spec fn spec_new() -> TankPacketType {
        TankPacketType {
            packet_type: ETankPacketType::NetGamePacketState,
            unk1: 0,
            unk2: 0,
            unk3: 0,
            net_id: 0,
            unk4: 0,
            flags: 0,
            unk6: 0,
            value: 0,
            vector_x: 0,
            vector_y: 0,
            vector_x2: 0,
            vector_y2: 0,
            unk12: 0,
            int_x: 0,
            int_y: 0,
            extended_data_length: 0,
        }
    }

    pub fn new() -> (r: TankPacketType)
        ensures
            r == Self::spec_new(),
    {
        TankPacketType {
            packet_type: ETankPacketType::NetGamePacketState,
            unk1: 0,
            unk2: 0,
            unk3: 0,
            net_id: 0,
            unk4: 0,
            flags: 0,
            unk6: 0,
            value: 0,
            vector_x: 0,
            vector_y: 0,
            vector_x2: 0,
            vector_y2: 0,
            unk12: 0,
            int_x: 0,
            int_y: 0,
            extended_data_length: 0,
        }
    }
}

} // verus!
