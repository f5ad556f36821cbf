//! The decisions of the session's workers. Each worker's loop performs the
//! I/O and hands what it saw to these functions, which say what to do next.
use crate::commands::{attach_frame, detach_frame, ping_frame, AttachCommand, Command, DetachCommand, PingCommand};
use crate::models::{ApplicationState, AttachResponse, PingResponse};
use crate::protocol::{attach_answer_complete, attach_answer_ends, attach_outcome, decode_attach_response, ping_outcome, AttachOutcome};
use vstd::prelude::*;

verus! {

/// The vendor id the remote host is told for every pad.
pub const ATTACH_VID: i16 = 0x7331;

/// The product id the remote host is told for every pad.
pub const ATTACH_PID: i16 = 0x1337;

/// What a datagram worker, or the poller, does on one turn of its loop.
#[derive(Clone, Copy, Debug, PartialEq, Eq, Structural)]
pub enum WorkerStep {
    /// Sleep one tick and look again.
    Idle,
    /// Do one turn of work.
    Work,
    /// Return: the session is exiting.
    Return,
}

/// The step a worker takes in a lifecycle state: work while connected, idle
/// while disconnected, and return once exiting.
pub open spec fn worker_step_in(state: ApplicationState) -> WorkerStep {
    match state {
        ApplicationState::Disconnected => WorkerStep::Idle,
        ApplicationState::Connected => WorkerStep::Work,
        ApplicationState::Exiting => WorkerStep::Return,
    }
}

pub fn worker_step(state: ApplicationState) -> (r: WorkerStep)
    ensures
        r == worker_step_in(state),
{
    match state {
        ApplicationState::Disconnected => WorkerStep::Idle,
        ApplicationState::Connected => WorkerStep::Work,
        ApplicationState::Exiting => WorkerStep::Return,
    }
}

/// What the supervisor does on one turn of its loop.
#[derive(Clone, Copy, Debug, PartialEq, Eq, Structural)]
pub enum SupervisorStep {
    /// Ask the control channel for a keepalive, then sleep one interval.
    Ping,
    /// Sleep one interval and look again.
    Wait,
    /// Join the workers in reverse start order and return.
    Join,
}

/// The supervisor's step in a lifecycle state: a keepalive while connected,
/// a wait while disconnected, and the join once exiting.
pub open spec fn supervisor_step_in(state: ApplicationState) -> SupervisorStep {
    match state {
        ApplicationState::Disconnected => SupervisorStep::Wait,
        ApplicationState::Connected => SupervisorStep::Ping,
        ApplicationState::Exiting => SupervisorStep::Join,
    }
}

pub fn supervisor_step(state: ApplicationState) -> (r: SupervisorStep)
    ensures
        r == supervisor_step_in(state),
{
    match state {
        ApplicationState::Disconnected => SupervisorStep::Wait,
        ApplicationState::Connected => SupervisorStep::Ping,
        ApplicationState::Exiting => SupervisorStep::Join,
    }
}

/// Whichever loop a worker runs, an exiting session makes its next turn its
/// last: the datagram workers and the poller return, the supervisor joins,
/// and the control channel shuts down, whatever its connection.
pub proof fn exiting_stops_every_loop(state: ApplicationState, online: bool, failed: bool)
    requires
        state is Exiting,
    ensures
        worker_step_in(state) == WorkerStep::Return,
        supervisor_step_in(state) == SupervisorStep::Join,
        control_step(online, failed, state) is Shutdown,
{
}

/// Why a polling rate was refused.
#[derive(Clone, Copy, Debug, PartialEq, Eq, Structural)]
pub enum PollingRateError {
    /// Below 20 Hz.
    TooLow,
    /// Above 1000 Hz.
    TooHigh,
}

/// The rate limiter's quota for a polling rate in [20, 1000] Hz: half the
/// rate, in events per second (the loop's two halves make up the rest).
pub fn polling_quota(polling_rate: u32) -> (r: Result<u32, PollingRateError>)
    ensures
        polling_rate < 20 <==> r == Err::<u32, PollingRateError>(PollingRateError::TooLow),
        polling_rate > 1000 <==> r == Err::<u32, PollingRateError>(PollingRateError::TooHigh),
        20 <= polling_rate <= 1000 ==> r == Ok::<u32, PollingRateError>(polling_rate / 2),
{
    if polling_rate < 20 {
        Err(PollingRateError::TooLow)
    } else if polling_rate > 1000 {
        Err(PollingRateError::TooHigh)
    } else {
        Ok(polling_rate / 2)
    }
}

/// A request to the control channel. Each gets exactly one reply.
#[derive(Clone, Copy, Debug, PartialEq, Eq, Structural)]
pub enum ControlRequest {
    Ping,
    Attach(i32),
    Detach(i32),
}

/// The control channel's reply to a request.
#[derive(Clone, Copy, Debug, PartialEq, Eq, Structural)]
pub enum ControlReply {
    Ping(PingResponse),
    Attach(Option<AttachResponse>),
    Detach,
}

/// The bytes a request puts on the control channel.
pub open spec fn request_frame(request: ControlRequest) -> Seq<u8> {
    match request {
        ControlRequest::Ping => ping_frame(),
        ControlRequest::Attach(handle) => attach_frame(handle, ATTACH_VID, ATTACH_PID),
        ControlRequest::Detach(handle) => detach_frame(handle),
    }
}

/// Whether the bytes read after a request make up its whole answer: one byte
/// for a ping, the attach answer up to its end, nothing for a detach.
pub open spec fn answer_ends(request: ControlRequest, read: Seq<u8>) -> bool {
    match request {
        ControlRequest::Ping => read.len() >= 1,
        ControlRequest::Attach(_) => attach_answer_ends(read),
        ControlRequest::Detach(_) => true,
    }
}

/// The reply to a request whose frame was written (`written`) and after
/// which `read` was read, and whether the exchange lost the connection.
///
/// A ping is answered `Pong` only when the pong byte came back; anything
/// else loses the connection. An attach is answered with the slots the host
/// gave, or with none: a refusal (a negative slot) keeps the connection,
/// a failed write, a zero status byte or a short answer loses it. A detach
/// is acknowledged either way, and a detach that could not be written loses
/// the connection.
pub open spec fn exchange_result(request: ControlRequest, written: bool, read: Seq<u8>) -> (
    ControlReply,
    bool,
) {
    match request {
        ControlRequest::Ping => {
            let pong = written && read.len() >= 1 && read[0] == 0xF1;
            (
                ControlReply::Ping(if pong { PingResponse::Pong } else { PingResponse::Disconnect }),
                !pong,
            )
        },
        ControlRequest::Attach(_) => {
            if !written {
                (ControlReply::Attach(None), true)
            } else {
                match attach_outcome(read) {
                    AttachOutcome::Attached(response) => (ControlReply::Attach(Some(response)), false),
                    AttachOutcome::Refused => (ControlReply::Attach(None), false),
                    AttachOutcome::Failed => (ControlReply::Attach(None), true),
                }
            }
        },
        ControlRequest::Detach(_) => (ControlReply::Detach, !written),
    }
}

/// What the control channel does on one turn of its loop.
#[derive(Clone, Copy, Debug, PartialEq, Eq, Structural)]
pub enum ControlStep {
    /// Close and return; with a live connection, send the abort byte first.
    Shutdown { send_abort: bool },
    /// Connect and run the handshake.
    Connect,
    /// Drop the failed connection and mark the session disconnected.
    Reset,
    /// Serve the next request.
    Serve,
}

/// The control channel's step, from whether it has a connection, whether
/// that connection failed, and the lifecycle state.
pub open spec fn control_step(online: bool, failed: bool, state: ApplicationState) -> ControlStep {
    if state is Exiting {
        ControlStep::Shutdown { send_abort: online && !failed }
    } else if !online {
        ControlStep::Connect
    } else if failed {
        ControlStep::Reset
    } else {
        ControlStep::Serve
    }
}

/// The control channel's state: offline, or online with a connection that
/// may have been marked failed.
pub struct ControlChannel {
    online: bool,
    failed: bool,
}

impl ControlChannel {
    pub closed spec fn online(&self) -> bool {
        self.online
    }

    pub closed spec fn failed(&self) -> bool {
        self.failed
    }

    /// Offline, as the channel starts.
    pub fn new() -> (r: ControlChannel)
        ensures
            !r.online(),
            !r.failed(),
    {
        ControlChannel { online: false, failed: false }
    }

    /// The next step in lifecycle state `state`.
    pub fn next_step(&self, state: ApplicationState) -> (r: ControlStep)
        ensures
            r == control_step(self.online(), self.failed(), state),
    {
        if state.is_exiting() {
            ControlStep::Shutdown { send_abort: self.online && !self.failed }
        } else if !self.online {
            ControlStep::Connect
        } else if self.failed {
            ControlStep::Reset
        } else {
            ControlStep::Serve
        }
    }

    /// A connection was made and its handshake passed.
    pub fn connected(&mut self)
        ensures
            final(self).online(),
            !final(self).failed(),
    {
        self.online = true;
        self.failed = false;
    }

    /// The connection was dropped.
    pub fn reset(&mut self)
        ensures
            !final(self).online(),
            !final(self).failed(),
    {
        self.online = false;
        self.failed = false;
    }

    /// The bytes to write for a request.
    pub fn request_bytes(request: ControlRequest) -> (r: Vec<u8>)
        ensures
            r@ == request_frame(request),
    {
        match request {
            ControlRequest::Ping => {
                let command = PingCommand::new();
                command.byte_data().clone()
            },
            ControlRequest::Attach(handle) => {
                let command = AttachCommand::new(handle, ATTACH_VID, ATTACH_PID, 1);
                command.byte_data().clone()
            },
            ControlRequest::Detach(handle) => {
                let command = DetachCommand::new(handle, 1);
                command.byte_data().clone()
            },
        }
    }

    /// Whether the bytes read after a request make up its whole answer.
    pub fn answer_complete(request: ControlRequest, read: &[u8]) -> (r: bool)
        ensures
            r == answer_ends(request, read@),
    {
        match request {
            ControlRequest::Ping => read.len() >= 1,
            ControlRequest::Attach(_) => attach_answer_complete(read),
            ControlRequest::Detach(_) => true,
        }
    }

    /// Ends the exchange of a request: whether its frame was written, and
    /// the bytes read after it (cut short where a read failed). The request
    /// gets exactly one reply, of its own kind; a lost connection is marked
    /// failed, and a failure stays marked.
    pub fn complete(&mut self, request: ControlRequest, written: bool, read: &[u8]) -> (r: ControlReply)
        ensures
            r == exchange_result(request, written, read@).0,
            final(self).online() == old(self).online(),
            final(self).failed() == (old(self).failed() || exchange_result(request, written, read@).1),
    {
        let (reply, lost) = match request {
            ControlRequest::Ping => {
                let answer = if written && read.len() >= 1 {
                    Some(read[0])
                } else {
                    None
                };
                let response = ping_outcome(answer);
                (ControlReply::Ping(response), response == PingResponse::Disconnect)
            },
            ControlRequest::Attach(_) => {
                if !written {
                    (ControlReply::Attach(None), true)
                } else {
                    match decode_attach_response(read) {
                        AttachOutcome::Attached(response) => (ControlReply::Attach(Some(response)), false),
                        AttachOutcome::Refused => (ControlReply::Attach(None), false),
                        AttachOutcome::Failed => (ControlReply::Attach(None), true),
                    }
                }
            },
            ControlRequest::Detach(_) => (ControlReply::Detach, !written),
        };
        self.failed = self.failed || lost;
        reply
    }
}

/// Every request to the control channel receives exactly one reply, of its
/// own kind, whatever became of the exchange: an attach request an attach
/// reply (slots or none), a ping a keepalive answer, a detach its
/// acknowledgement.
pub proof fn every_request_answered(request: ControlRequest, written: bool, read: Seq<u8>)
    ensures
        request is Attach <==> exchange_result(request, written, read).0 is Attach,
        request is Ping <==> exchange_result(request, written, read).0 is Ping,
        request is Detach <==> exchange_result(request, written, read).0 is Detach,
{
}

} // verus!
