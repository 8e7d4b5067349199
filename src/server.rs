//! Server: the Responder's side of TWAMP-Control, as a state machine that takes
//! each message read from the stream and hands back each message to write.

use crate::accept_session::AcceptSession;
use crate::codes::{mode_of, Accept, ControlMessages, SecurityMode, WireError};
use crate::request_tw_session::RequestTwSession;
use crate::server_greeting::{ServerGreeting, DEFAULT_COUNT};
use crate::server_start::ServerStart;
use crate::set_up_response::SetUpResponse;
use crate::start_ack::StartAck;
use crate::start_sessions::StartSessions;
use crate::stop_sessions::StopSessions;
use crate::timestamp::TimeStamp;
use crate::wire::{all_zero, u32_at};
use vstd::prelude::*;

verus! {

/// Where the Server stands in the dialogue.
#[derive(Clone, Copy, Debug, PartialEq, Eq, Structural)]
pub enum ServerPhase {
    SendGreeting,
    AwaitSetUp,
    SendStart,
    AwaitRequest,
    SendAccept,
    AwaitStartSessions,
    SendStartAck,
    AwaitStop,
    Done,
    Failed,
}

/// Why the Server gave up the session.
#[derive(Clone, Copy, Debug, PartialEq, Eq, Structural)]
pub enum ServerError {
    /// Reading the named message from the stream failed.
    ReadError(ControlMessages),
    /// Writing the named message to the stream failed.
    WriteError(ControlMessages),
    /// The named message was not a valid image.
    WireConversionError(ControlMessages, WireError),
    /// The Control-Client selected a mode other than unauthenticated.
    ModeNotSupported(SecurityMode),
    /// The named message does not come next in the dialogue.
    OutOfOrder(ControlMessages),
}

/// The error a Set-Up-Response image earns, if any.
pub open spec fn set_up_error(b: Seq<u8>) -> Option<ServerError> {
    match SetUpResponse::check(b) {
        Err(e) => Some(ServerError::WireConversionError(ControlMessages::SetUpResponse, e)),
        Ok(_) => if u32_at(b, 0) == 1 {
            None
        } else {
            Some(ServerError::ModeNotSupported(mode_of(u32_at(b, 0))->Some_0))
        },
    }
}

/// The error an image earns when `checked` says whether it parsed.
pub open spec fn parse_error(checked: Result<(), WireError>, msg: ControlMessages) -> Option<
    ServerError,
> {
    match checked {
        Err(e) => Some(ServerError::WireConversionError(msg, e)),
        Ok(_) => None,
    }
}

/// The Server's state.
#[derive(Debug)]
pub struct Server {
    pub phase: ServerPhase,
    /// The timeout of the request, once it has been read.
    pub timeout: Option<u64>,
}

impl Server {
    /// A Server that greets first.
    pub fn new() -> (r: Server)
        ensures
            r.phase == ServerPhase::SendGreeting,
            r.timeout is None,
    {
        Server { phase: ServerPhase::SendGreeting, timeout: None }
    }

    /// The Server-Greeting offering unauthenticated mode.
    pub fn send_server_greeting(&mut self) -> (r: Result<(ServerGreeting, Vec<u8>), ServerError>)
        ensures
            final(self).timeout == old(self).timeout,
            old(self).phase != ServerPhase::SendGreeting ==> r == Err::<(ServerGreeting, Vec<u8>), ServerError>(
                ServerError::OutOfOrder(ControlMessages::ServerGreeting),
            ) && final(self).phase == old(self).phase,
            old(self).phase == ServerPhase::SendGreeting ==> r is Ok && final(self).phase
                == ServerPhase::AwaitSetUp && r->Ok_0.0.wf() && r->Ok_0.0.mode == 1
                && r->Ok_0.0.count == DEFAULT_COUNT && r->Ok_0.1@ == r->Ok_0.0.wire(),
    {
        if !matches!(self.phase, ServerPhase::SendGreeting) {
            return Err(ServerError::OutOfOrder(ControlMessages::ServerGreeting));
        }
        let modes = [SecurityMode::Unauthenticated];
        let greeting = ServerGreeting::new(modes.as_slice());
        assert(modes@.len() == 1 && modes@[0] == SecurityMode::Unauthenticated);
        assert(modes@.drop_last() =~= Seq::<SecurityMode>::empty());
        assert(crate::server_greeting::modes_or(Seq::<SecurityMode>::empty()) == 0);
        assert((0u32 | 1u32) == 1u32) by (bit_vector);
        assert(crate::server_greeting::modes_or(modes@) == 1);
        let bytes = greeting.to_bytes();
        self.phase = ServerPhase::AwaitSetUp;
        Ok((greeting, bytes))
    }

    /// Takes the Set-Up-Response; it must select unauthenticated mode.
    pub fn read_set_up_response(&mut self, buf: &[u8]) -> (r: Result<SetUpResponse, ServerError>)
        ensures
            final(self).timeout == old(self).timeout,
            old(self).phase != ServerPhase::AwaitSetUp ==> r == Err::<SetUpResponse, ServerError>(
                ServerError::OutOfOrder(ControlMessages::SetUpResponse),
            ) && final(self).phase == old(self).phase,
            old(self).phase == ServerPhase::AwaitSetUp ==> match r {
                Ok(m) => set_up_error(buf@) is None && SetUpResponse::decodes(buf@, m)
                    && final(self).phase == ServerPhase::SendStart,
                Err(e) => set_up_error(buf@) == Some(e) && final(self).phase == ServerPhase::Failed,
            },
    {
        if !matches!(self.phase, ServerPhase::AwaitSetUp) {
            return Err(ServerError::OutOfOrder(ControlMessages::SetUpResponse));
        }
        match SetUpResponse::from_bytes(buf) {
            Err(e) => {
                self.phase = ServerPhase::Failed;
                Err(ServerError::WireConversionError(ControlMessages::SetUpResponse, e))
            },
            Ok(m) => {
                if matches!(m.mode, SecurityMode::Unauthenticated) {
                    self.phase = ServerPhase::SendStart;
                    Ok(m)
                } else {
                    self.phase = ServerPhase::Failed;
                    Err(ServerError::ModeNotSupported(m.mode))
                }
            },
        }
    }

    /// The Server-Start accepting the session, with the given start time.
    pub fn send_server_start(&mut self, start_time: TimeStamp) -> (r: Result<Vec<u8>, ServerError>)
        ensures
            final(self).timeout == old(self).timeout,
            old(self).phase != ServerPhase::SendStart ==> r == Err::<Vec<u8>, ServerError>(
                ServerError::OutOfOrder(ControlMessages::ServerStart),
            ) && final(self).phase == old(self).phase,
            old(self).phase == ServerPhase::SendStart ==> r is Ok && final(self).phase
                == ServerPhase::AwaitRequest && exists|m: ServerStart|
                #[trigger] m.wire() == r->Ok_0@ && m.wf() && m.accept == Accept::Accepted
                    && m.start_time == start_time && all_zero(m.server_iv@),
    {
        if !matches!(self.phase, ServerPhase::SendStart) {
            return Err(ServerError::OutOfOrder(ControlMessages::ServerStart));
        }
        let m = ServerStart::new(Accept::Accepted, start_time);
        self.phase = ServerPhase::AwaitRequest;
        let bytes = m.to_bytes();
        assert(m.wire() == bytes@);
        Ok(bytes)
    }

    /// Takes the Request-TW-Session. The Session-Reflector is set up from it, and
    /// the port it actually binds goes into the Accept-Session.
    pub fn read_request_tw_session(&mut self, buf: &[u8]) -> (r: Result<RequestTwSession, ServerError>)
        ensures
            old(self).phase != ServerPhase::AwaitRequest ==> r == Err::<RequestTwSession, ServerError>(
                ServerError::OutOfOrder(ControlMessages::RequestTwSession),
            ) && final(self).phase == old(self).phase && final(self).timeout == old(self).timeout,
            old(self).phase == ServerPhase::AwaitRequest ==> match r {
                Ok(m) => RequestTwSession::check(buf@) is Ok && RequestTwSession::decodes(buf@, m)
                    && final(self).phase == ServerPhase::SendAccept && final(self).timeout == Some(
                    m.timeout,
                ),
                Err(e) => parse_error(RequestTwSession::check(buf@), ControlMessages::RequestTwSession)
                    == Some(e) && final(self).phase == ServerPhase::Failed && final(self).timeout
                    == old(self).timeout,
            },
    {
        if !matches!(self.phase, ServerPhase::AwaitRequest) {
            return Err(ServerError::OutOfOrder(ControlMessages::RequestTwSession));
        }
        match RequestTwSession::from_bytes(buf) {
            Err(e) => {
                self.phase = ServerPhase::Failed;
                Err(ServerError::WireConversionError(ControlMessages::RequestTwSession, e))
            },
            Ok(m) => {
                self.phase = ServerPhase::SendAccept;
                self.timeout = Some(m.timeout);
                Ok(m)
            },
        }
    }

    /// The Accept-Session accepting the session on `receiver_port`, the port the
    /// Session-Reflector actually bound.
    pub fn send_accept_session(&mut self, receiver_port: u16) -> (r: Result<Vec<u8>, ServerError>)
        ensures
            final(self).timeout == old(self).timeout,
            old(self).phase != ServerPhase::SendAccept ==> r == Err::<Vec<u8>, ServerError>(
                ServerError::OutOfOrder(ControlMessages::AcceptSession),
            ) && final(self).phase == old(self).phase,
            old(self).phase == ServerPhase::SendAccept ==> r is Ok && final(self).phase
                == ServerPhase::AwaitStartSessions && r->Ok_0@ == accept_session_bytes(
                receiver_port,
            ),
    {
        if !matches!(self.phase, ServerPhase::SendAccept) {
            return Err(ServerError::OutOfOrder(ControlMessages::AcceptSession));
        }
        let m = AcceptSession::new(Accept::Accepted, receiver_port, 0, 0);
        self.phase = ServerPhase::AwaitStartSessions;
        let bytes = m.to_bytes();
        assert(bytes@ =~= accept_session_bytes(receiver_port));
        Ok(bytes)
    }

    /// Takes the Start-Sessions command.
    pub fn read_start_sessions(&mut self, buf: &[u8]) -> (r: Result<StartSessions, ServerError>)
        ensures
            final(self).timeout == old(self).timeout,
            old(self).phase != ServerPhase::AwaitStartSessions ==> r == Err::<StartSessions, ServerError>(
                ServerError::OutOfOrder(ControlMessages::StartSessions),
            ) && final(self).phase == old(self).phase,
            old(self).phase == ServerPhase::AwaitStartSessions ==> match r {
                Ok(m) => StartSessions::check(buf@) is Ok && StartSessions::decodes(buf@, m)
                    && final(self).phase == ServerPhase::SendStartAck,
                Err(e) => parse_error(StartSessions::check(buf@), ControlMessages::StartSessions)
                    == Some(e) && final(self).phase == ServerPhase::Failed,
            },
    {
        if !matches!(self.phase, ServerPhase::AwaitStartSessions) {
            return Err(ServerError::OutOfOrder(ControlMessages::StartSessions));
        }
        match StartSessions::from_bytes(buf) {
            Err(e) => {
                self.phase = ServerPhase::Failed;
                Err(ServerError::WireConversionError(ControlMessages::StartSessions, e))
            },
            Ok(m) => {
                self.phase = ServerPhase::SendStartAck;
                Ok(m)
            },
        }
    }

    /// The Start-Ack accepting; after it the Session-Reflector reflects.
    pub fn send_start_ack(&mut self) -> (r: Result<Vec<u8>, ServerError>)
        ensures
            final(self).timeout == old(self).timeout,
            old(self).phase != ServerPhase::SendStartAck ==> r == Err::<Vec<u8>, ServerError>(
                ServerError::OutOfOrder(ControlMessages::StartAck),
            ) && final(self).phase == old(self).phase,
            old(self).phase == ServerPhase::SendStartAck ==> r is Ok && final(self).phase
                == ServerPhase::AwaitStop && r->Ok_0@ == Seq::new(32, |_i| 0u8),
    {
        if !matches!(self.phase, ServerPhase::SendStartAck) {
            return Err(ServerError::OutOfOrder(ControlMessages::StartAck));
        }
        self.phase = ServerPhase::AwaitStop;
        let bytes = StartAck::new(Accept::Accepted).to_bytes();
        assert(bytes@ =~= Seq::new(32, |_i| 0u8));
        Ok(bytes)
    }

    /// Takes the Stop-Sessions command; the Session-Reflector then keeps reflecting
    /// for the request's timeout and stops.
    pub fn read_stop_sessions(&mut self, buf: &[u8]) -> (r: Result<StopSessions, ServerError>)
        ensures
            final(self).timeout == old(self).timeout,
            old(self).phase != ServerPhase::AwaitStop ==> r == Err::<StopSessions, ServerError>(
                ServerError::OutOfOrder(ControlMessages::StopSessions),
            ) && final(self).phase == old(self).phase,
            old(self).phase == ServerPhase::AwaitStop ==> match r {
                Ok(m) => StopSessions::check(buf@) is Ok && StopSessions::decodes(buf@, m)
                    && final(self).phase == ServerPhase::Done,
                Err(e) => parse_error(StopSessions::check(buf@), ControlMessages::StopSessions)
                    == Some(e) && final(self).phase == ServerPhase::Failed,
            },
    {
        if !matches!(self.phase, ServerPhase::AwaitStop) {
            return Err(ServerError::OutOfOrder(ControlMessages::StopSessions));
        }
        match StopSessions::from_bytes(buf) {
            Err(e) => {
                self.phase = ServerPhase::Failed;
                Err(ServerError::WireConversionError(ControlMessages::StopSessions, e))
            },
            Ok(m) => {
                self.phase = ServerPhase::Done;
                Ok(m)
            },
        }
    }
}

/// The image of an Accept-Session accepting on `port`.
pub open spec fn accept_session_bytes(port: u16) -> Seq<u8> {
    seq![0u8, 0u8] + crate::wire::be16(port) + Seq::new(44, |_i| 0u8)
}

/// The port the Server puts into Accept-Session reaches the Control-Client
/// unchanged: the image is accepted, carries Accept Ok, and decodes to that port.
pub proof fn lemma_accept_session_port(port: u16, m: AcceptSession)
    ensures
        AcceptSession::check(accept_session_bytes(port)) is Ok,
        crate::control_client::accept_session_error(accept_session_bytes(port)) is None,
        AcceptSession::decodes(accept_session_bytes(port), m) ==> m.port == port,
{
    let b = accept_session_bytes(port);
    assert(b.subrange(2, 4) =~= crate::wire::be16(port));
    assert(b.subrange(24, 32) =~= Seq::new(8, |_i| 0u8));
    crate::wire::lemma_be16(port, b, 2);
}

} // verus!
