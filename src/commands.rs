//! The frames sent to the remote host, each built once and then only read.
use bytebuffer::ByteBuffer;
use crate::models::Controller;
use crate::protocol::{TcpProtocol, UdpProtocol};
use crate::wire::{be_i16, be_i32, buffer_appends, buffer_bytes};
use vstd::prelude::*;

verus! {

/// A frame ready to be written to the wire.
pub trait Command {
    /// The bytes of the frame.
    spec fn frame(&self) -> Seq<u8>;

    fn byte_data(&self) -> (r: &Vec<u8>)
        ensures
            r@ == self.frame(),
    ;
}

/// `Attach`: opcode, handle, vendor id, product id.
pub open spec fn attach_frame(handle: i32, vid: i16, pid: i16) -> Seq<u8> {
    seq![0x01u8] + be_i32(handle) + be_i16(vid) + be_i16(pid)
}

/// `Detach`: opcode, handle.
pub open spec fn detach_frame(handle: i32) -> Seq<u8> {
    seq![0x02u8] + be_i32(handle)
}

/// `Ping`: the opcode alone.
pub open spec fn ping_frame() -> Seq<u8> {
    seq![0xF0u8]
}

/// One controller's entry of a data frame: handle, device slot, pad slot,
/// the low byte of the payload's length, and the payload.
pub open spec fn data_entry(c: Controller, payload: Seq<u8>) -> Seq<u8> {
    be_i32(c.handle) + be_i16(c.device_slot) + seq![c.pad_slot as u8, (payload.len() % 256) as u8]
        + payload
}

/// The entries of a data frame, in order.
pub open spec fn data_entries(s: Seq<(Controller, Seq<u8>)>) -> Seq<u8>
    decreases s.len(),
{
    if s.len() == 0 {
        Seq::empty()
    } else {
        data_entries(s.drop_last()) + data_entry(s.last().0, s.last().1)
    }
}

/// A data frame: opcode, the low byte of the number of controllers, and
/// their entries.
pub open spec fn data_frame(s: Seq<(Controller, Seq<u8>)>) -> Seq<u8> {
    seq![0x03u8, (s.len() % 256) as u8] + data_entries(s)
}

/// The controllers and payloads that a data frame is built from, as values.
pub open spec fn data_items(controllers: Seq<(&Controller, Vec<u8>)>) -> Seq<(Controller, Seq<u8>)> {
    controllers.map_values(|e: (&Controller, Vec<u8>)| (*e.0, e.1@))
}

pub struct AttachCommand {
    handle: i32,
    vid: i16,
    pid: i16,
    sender: i32,
    data: Vec<u8>,
}

impl AttachCommand {
    pub closed spec fn handle(&self) -> i32 {
        self.handle
    }

    pub closed spec fn vid(&self) -> i16 {
        self.vid
    }

    pub closed spec fn pid(&self) -> i16 {
        self.pid
    }

    /// The frame is the one its handle, vendor and product call for.
    pub closed spec fn wf(&self) -> bool {
        self.data@ == attach_frame(self.handle, self.vid, self.pid)
    }

    pub fn new(handle: i32, vid: i16, pid: i16, sender: i32) -> (r: AttachCommand)
        ensures
            r.wf(),
            r.frame() == attach_frame(handle, vid, pid),
            r.handle() == handle,
            r.vid() == vid,
            r.pid() == pid,
    {
        let mut buffer = ByteBuffer::new();
        buffer.write_u8(TcpProtocol::TcpCommandAttach.byte());
        buffer.write_i32(handle);
        buffer.write_i16(vid);
        buffer.write_i16(pid);
        let data = buffer.into_vec();
        proof {
            assert(data@ =~= attach_frame(handle, vid, pid));
        }
        AttachCommand { handle, vid, pid, sender, data }
    }
}

impl Command for AttachCommand {
    closed spec fn frame(&self) -> Seq<u8> {
        self.data@
    }

    fn byte_data(&self) -> (r: &Vec<u8>) {
        &self.data
    }
}

pub struct DetachCommand {
    handle: i32,
    sender: i32,
    data: Vec<u8>,
}

impl DetachCommand {
    pub closed spec fn handle(&self) -> i32 {
        self.handle
    }

    /// The frame is the one its handle calls for.
    pub closed spec fn wf(&self) -> bool {
        self.data@ == detach_frame(self.handle)
    }

    pub fn new(handle: i32, sender: i32) -> (r: DetachCommand)
        ensures
            r.wf(),
            r.frame() == detach_frame(handle),
            r.handle() == handle,
    {
        let mut buffer = ByteBuffer::new();
        buffer.write_u8(TcpProtocol::TcpCommandDetach.byte());
        buffer.write_i32(handle);
        let data = buffer.into_vec();
        proof {
            assert(data@ =~= detach_frame(handle));
        }
        DetachCommand { handle, sender, data }
    }
}

impl Command for DetachCommand {
    closed spec fn frame(&self) -> Seq<u8> {
        self.data@
    }

    fn byte_data(&self) -> (r: &Vec<u8>) {
        &self.data
    }
}

pub struct WriteCommand {
    sender: i32,
    data: Vec<u8>,
}

impl WriteCommand {
    /// The data frame for these controllers and their state payloads. A
    /// count above 255 keeps only its low byte.
    pub fn new(controllers: &Vec<(&Controller, Vec<u8>)>, sender: i32) -> (r: WriteCommand)
        ensures
            r.frame() == data_frame(data_items(controllers@)),
    {
        let ghost items = data_items(controllers@);
        let mut buffer = ByteBuffer::new();
        buffer.write_u8(UdpProtocol::UdpCommandData.byte());
        buffer.write_u8((controllers.len() % 256) as u8);
        let mut i: usize = 0;
        while i < controllers.len()
            invariant
                i <= controllers.len(),
                items == data_items(controllers@),
                buffer_appends(buffer),
                buffer_bytes(buffer) == seq![0x03u8, (controllers@.len() % 256) as u8]
                    + data_entries(items.take(i as int)),
            decreases controllers.len() - i,
        {
            let controller = controllers[i].0;
            let payload = &controllers[i].1;
            buffer.write_i32(controller.handle);
            buffer.write_i16(controller.device_slot);
            buffer.write_i8(controller.pad_slot);
            buffer.write_u8((payload.len() % 256) as u8);
            buffer.write_bytes(payload.as_slice());
            proof {
                let next = items.take(i + 1);
                assert(next.drop_last() =~= items.take(i as int));
                assert(next.last() == items[i as int]);
                assert(buffer_bytes(buffer) =~= seq![0x03u8, (controllers@.len() % 256) as u8]
                    + data_entries(next));
            }
            i = i + 1;
        }
        let data = buffer.into_vec();
        proof {
            assert(items.take(controllers@.len() as int) =~= items);
        }
        WriteCommand { sender, data }
    }
}

impl Command for WriteCommand {
    closed spec fn frame(&self) -> Seq<u8> {
        self.data@
    }

    fn byte_data(&self) -> (r: &Vec<u8>) {
        &self.data
    }
}

/// Two `Detach` commands for the same handle put the same bytes on the wire,
/// whoever sent them.
pub proof fn repeated_detach_identical(first: DetachCommand, second: DetachCommand)
    requires
        first.wf(),
        second.wf(),
        first.handle() == second.handle(),
    ensures
        first.frame() == second.frame(),
{
}

/// Two `Attach` commands for the same handle, vendor and product put the
/// same bytes on the wire, whoever sent them.
pub proof fn repeated_attach_identical(first: AttachCommand, second: AttachCommand)
    requires
        first.wf(),
        second.wf(),
        first.handle() == second.handle(),
        first.vid() == second.vid(),
        first.pid() == second.pid(),
    ensures
        first.frame() == second.frame(),
{
}

pub struct PingCommand {
    data: Vec<u8>,
}

impl PingCommand {
    pub fn new() -> (r: PingCommand)
        ensures
            r.frame() == ping_frame(),
    {
        let data = vec![TcpProtocol::TcpCommandPing.byte()];
        proof {
            assert(data@ =~= ping_frame());
        }
        PingCommand { data }
    }
}

impl Command for PingCommand {
    closed spec fn frame(&self) -> Seq<u8> {
        self.data@
    }

    fn byte_data(&self) -> (r: &Vec<u8>) {
        &self.data
    }
}

} // verus!
