//! Opcodes, ports and the decisions the session takes on bytes read from
//! the remote host.
use crate::models::{AttachResponse, PingResponse, Rumble};
use crate::wire::{be_i16, be_i32, read_be_i16, read_be_i32};
use vstd::prelude::*;

verus! {

/// Opcodes of the control (stream) channel.
#[derive(Clone, Copy, Debug, PartialEq, Eq, Structural)]
pub enum TcpProtocol {
    TcpCommandAttach,
    TcpCommandDetach,
    TcpCommandPing,
    TcpCommandPong,
    TcpCommandAttachConfigFound,
    TcpCommandAttachConfigNotFound,
    TcpCommandAttachUserdataOkay,
    TcpCommandAttachUserdataBad,
}

impl TcpProtocol {
    pub open spec fn spec_byte(self) -> u8 {
        match self {
            TcpProtocol::TcpCommandAttach => 0x01,
            TcpProtocol::TcpCommandDetach => 0x02,
            TcpProtocol::TcpCommandPing => 0xF0,
            TcpProtocol::TcpCommandPong => 0xF1,
            TcpProtocol::TcpCommandAttachConfigFound => 0xE0,
            TcpProtocol::TcpCommandAttachConfigNotFound => 0xE1,
            TcpProtocol::TcpCommandAttachUserdataOkay => 0xE8,
            TcpProtocol::TcpCommandAttachUserdataBad => 0xE9,
        }
    }

    /// The opcode's byte on the wire.
    pub fn byte(self) -> (r: u8)
        ensures
            r == self.spec_byte(),
    {
        match self {
            TcpProtocol::TcpCommandAttach => 0x01,
            TcpProtocol::TcpCommandDetach => 0x02,
            TcpProtocol::TcpCommandPing => 0xF0,
            TcpProtocol::TcpCommandPong => 0xF1,
            TcpProtocol::TcpCommandAttachConfigFound => 0xE0,
            TcpProtocol::TcpCommandAttachConfigNotFound => 0xE1,
            TcpProtocol::TcpCommandAttachUserdataOkay => 0xE8,
            TcpProtocol::TcpCommandAttachUserdataBad => 0xE9,
        }
    }
}

/// Opcodes of the datagram channels.
#[derive(Clone, Copy, Debug, PartialEq, Eq, Structural)]
pub enum UdpProtocol {
    UdpCommandData,
    UdpCommandRumble,
}

impl UdpProtocol {
    pub open spec fn spec_byte(self) -> u8 {
        match self {
            UdpProtocol::UdpCommandData => 0x03,
            UdpProtocol::UdpCommandRumble => 0x01,
        }
    }

    /// The opcode's byte on the wire.
    pub fn byte(self) -> (r: u8)
        ensures
            r == self.spec_byte(),
    {
        match self {
            UdpProtocol::UdpCommandData => 0x03,
            UdpProtocol::UdpCommandRumble => 0x01,
        }
    }
}

/// The ports of the remote host (and the local datagram ports, which are
/// the same numbers).
#[derive(Clone, Copy, Debug, PartialEq, Eq, Structural)]
pub enum BaseProtocol {
    TcpPort,
    UdpPort,
    UdpServerPort,
}

impl BaseProtocol {
    pub open spec fn spec_port(self) -> u16 {
        match self {
            BaseProtocol::TcpPort => 8112,
            BaseProtocol::UdpPort => 8113,
            BaseProtocol::UdpServerPort => 8114,
        }
    }

    pub fn port(self) -> (r: u16)
        ensures
            r == self.spec_port(),
    {
        match self {
            BaseProtocol::TcpPort => 8112,
            BaseProtocol::UdpPort => 8113,
            BaseProtocol::UdpServerPort => 8114,
        }
    }
}

/// The version bytes of the handshake; `Abort` is also the byte that
/// closes a session.
#[derive(Clone, Copy, Debug, PartialEq, Eq, Structural)]
pub enum ProtocolVersion {
    Unknown,
    Version1,
    Version2,
    Version3,
    Abort,
}

impl ProtocolVersion {
    pub open spec fn spec_byte(self) -> u8 {
        match self {
            ProtocolVersion::Unknown => 0x00,
            ProtocolVersion::Version1 => 0x12,
            ProtocolVersion::Version2 => 0x13,
            ProtocolVersion::Version3 => 0x14,
            ProtocolVersion::Abort => 0x30,
        }
    }

    /// The version that a byte names; every unlisted byte is `Unknown`.
    pub open spec fn spec_from_byte(b: u8) -> ProtocolVersion {
        if b == 0x12 {
            ProtocolVersion::Version1
        } else if b == 0x13 {
            ProtocolVersion::Version2
        } else if b == 0x14 {
            ProtocolVersion::Version3
        } else if b == 0x30 {
            ProtocolVersion::Abort
        } else {
            ProtocolVersion::Unknown
        }
    }

    pub fn byte(self) -> (r: u8)
        ensures
            r == self.spec_byte(),
    {
        match self {
            ProtocolVersion::Unknown => 0x00,
            ProtocolVersion::Version1 => 0x12,
            ProtocolVersion::Version2 => 0x13,
            ProtocolVersion::Version3 => 0x14,
            ProtocolVersion::Abort => 0x30,
        }
    }

    pub fn from_byte(b: u8) -> (r: ProtocolVersion)
        ensures
            r == Self::spec_from_byte(b),
    {
        match b {
            0x12 => ProtocolVersion::Version1,
            0x13 => ProtocolVersion::Version2,
            0x14 => ProtocolVersion::Version3,
            0x30 => ProtocolVersion::Abort,
            _ => ProtocolVersion::Unknown,
        }
    }
}

/// The first handshake step: the server's version byte is echoed back when
/// it is `Version3`; any other version ends the attempt.
pub fn handshake_echo(server_version: u8) -> (r: Option<u8>)
    ensures
        r == (if server_version == 0x14 { Some(0x14u8) } else { None::<u8> }),
{
    if ProtocolVersion::from_byte(server_version) == ProtocolVersion::Version3 {
        Some(server_version)
    } else {
        None
    }
}

/// The last handshake step: the server's final byte must name a version;
/// `Unknown` (any unlisted byte) and `Abort` end the attempt.
pub fn handshake_accepted(final_response: u8) -> (r: bool)
    ensures
        r == (final_response == 0x12 || final_response == 0x13 || final_response == 0x14),
{
    match ProtocolVersion::from_byte(final_response) {
        ProtocolVersion::Unknown => false,
        ProtocolVersion::Abort => false,
        _ => true,
    }
}

/// The keepalive's answer from the byte read after a `Ping` (`None` when the
/// read failed): `Pong` only for the pong opcode.
pub fn ping_outcome(reply: Option<u8>) -> (r: PingResponse)
    ensures
        r == (if reply == Some(0xF1u8) { PingResponse::Pong } else { PingResponse::Disconnect }),
{
    match reply {
        Some(b) => {
            if b == TcpProtocol::TcpCommandPong.byte() {
                PingResponse::Pong
            } else {
                PingResponse::Disconnect
            }
        },
        None => PingResponse::Disconnect,
    }
}

/// What an attach exchange came to.
#[derive(Clone, Copy, Debug, PartialEq, Eq, Structural)]
pub enum AttachOutcome {
    /// The remote host gave the pad these slots.
    Attached(AttachResponse),
    /// The answer was well formed but named a negative slot; the connection
    /// stays.
    Refused,
    /// A status byte was zero or the answer was cut short; the connection
    /// is lost.
    Failed,
}

/// Whether the bytes read so far end the attach answer: all five of them
/// are there, or a status byte read so far is zero.
pub open spec fn attach_answer_ends(read: Seq<u8>) -> bool {
    ||| read.len() >= 5
    ||| (read.len() >= 1 && read[0] == 0)
    ||| (read.len() >= 2 && read[1] == 0)
}

/// The outcome of the attach answer `read`: `config_status`,
/// `userdata_status`, `device_slot` (big-endian) and `pad_slot`, as far as
/// they were read.
pub open spec fn attach_outcome(read: Seq<u8>) -> AttachOutcome {
    if read.len() < 5 || read[0] == 0 || read[1] == 0 {
        AttachOutcome::Failed
    } else {
        let device_slot = choose|d: i16| be_i16(d) == read.subrange(2, 4);
        let pad_slot = read[4] as i8;
        if device_slot < 0 || pad_slot < 0 {
            AttachOutcome::Refused
        } else {
            AttachOutcome::Attached(AttachResponse { device_slot, pad_slot })
        }
    }
}

/// Whether the reader of an attach answer can stop: it has everything, or a
/// zero status byte has already decided the outcome.
pub fn attach_answer_complete(read: &[u8]) -> (r: bool)
    ensures
        r == attach_answer_ends(read@),
{
    read.len() >= 5 || (read.len() >= 1 && read[0] == 0) || (read.len() >= 2 && read[1] == 0)
}

/// Decodes the attach answer read from the control channel; `read` holds
/// the bytes read before the answer ended or a read failed. The status
/// bytes are informational unless zero.
pub fn decode_attach_response(read: &[u8]) -> (r: AttachOutcome)
    ensures
        r == attach_outcome(read@),
{
    if read.len() < 5 || read[0] == 0 || read[1] == 0 {
        return AttachOutcome::Failed;
    }
    let device_slot = read_be_i16(&read[2..4]);
    let pad_slot = read[4] as i8;
    proof {
        assert(read@.subrange(2, 4) =~= read@.subrange(2, 4).subrange(0, 2));
        lemma_be_i16_injective(device_slot);
    }
    if device_slot < 0 || pad_slot < 0 {
        AttachOutcome::Refused
    } else {
        AttachOutcome::Attached(AttachResponse { device_slot, pad_slot })
    }
}

/// The rumble order that a datagram carries: from the remote host, at least
/// six bytes, the rumble opcode first, then the big-endian handle, then a
/// discriminator that starts the rumble when it is the rumble opcode again
/// and stops it otherwise.
pub open spec fn rumble_order(datagram: Seq<u8>, from_remote: bool) -> Option<Rumble> {
    if !from_remote || datagram.len() < 6 || datagram[0] != 0x01 {
        None
    } else {
        let handle = choose|h: i32| be_i32(h) == datagram.subrange(1, 5);
        if datagram[5] == 0x01 {
            Some(Rumble::Start(handle))
        } else {
            Some(Rumble::Stop(handle))
        }
    }
}

/// Reads the rumble order out of a datagram received from `from_remote`'s
/// peer; any other datagram carries none.
pub fn parse_rumble(datagram: &[u8], from_remote: bool) -> (r: Option<Rumble>)
    ensures
        r == rumble_order(datagram@, from_remote),
{
    if !from_remote || datagram.len() < 6 {
        return None;
    }
    let rumble = UdpProtocol::UdpCommandRumble.byte();
    if datagram[0] != rumble {
        return None;
    }
    let handle = read_be_i32(&datagram[1..5]);
    proof {
        assert(datagram@.subrange(1, 5) =~= datagram@.subrange(1, 5).subrange(0, 4));
        lemma_be_i32_injective(handle);
    }
    if datagram[5] == rumble {
        Some(Rumble::Start(handle))
    } else {
        Some(Rumble::Stop(handle))
    }
}

/// Two 32-bit values with the same bytes are equal.
proof fn lemma_be_i32_injective(v: i32)
    ensures
        forall|h: i32| be_i32(h) == be_i32(v) ==> h == v,
{
    assert forall|h: i32| be_i32(h) == be_i32(v) implies h == v by {
        let a = h as u32;
        let b = v as u32;
        assert(be_i32(h)[0] == be_i32(v)[0]);
        assert(be_i32(h)[1] == be_i32(v)[1]);
        assert(be_i32(h)[2] == be_i32(v)[2]);
        assert(be_i32(h)[3] == be_i32(v)[3]);
        assert(((a >> 24u32) as u8 == (b >> 24u32) as u8 && (a >> 16u32) as u8 == (b
            >> 16u32) as u8 && (a >> 8u32) as u8 == (b >> 8u32) as u8 && a as u8 == b as u8)
            ==> a == b) by (bit_vector);
        assert(a == b ==> h == v) by (bit_vector)
            requires
                a == h as u32,
                b == v as u32,
        ;
    }
}

/// Two 16-bit values with the same bytes are equal.
proof fn lemma_be_i16_injective(v: i16)
    ensures
        forall|d: i16| be_i16(d) == be_i16(v) ==> d == v,
{
    assert forall|d: i16| be_i16(d) == be_i16(v) implies d == v by {
        let a = d as u16;
        let b = v as u16;
        assert(be_i16(d)[0] == be_i16(v)[0]);
        assert(be_i16(d)[1] == be_i16(v)[1]);
        assert(((a >> 8u16) as u8 == (b >> 8u16) as u8 && a as u8 == b as u8) ==> a == b)
            by (bit_vector);
        assert(a == b ==> d == v) by (bit_vector)
            requires
                a == d as u16,
                b == v as u16,
        ;
    }
}

} // verus!
