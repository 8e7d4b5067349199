//! Control-Client: the Controller's side of TWAMP-Control, as a state machine that
//! takes each message read from the stream and hands back each message to write.

use crate::accept_session::AcceptSession;
use crate::codes::{Accept, ControlMessages, SecurityMode, WireError};
use crate::request_tw_session::RequestTwSession;
use crate::server_greeting::{offers, ServerGreeting};
use crate::server_start::ServerStart;
use crate::set_up_response::SetUpResponse;
use crate::start_ack::StartAck;
use crate::start_sessions::StartSessions;
use crate::stop_sessions::StopSessions;
use crate::wire::u32_at;
use vstd::prelude::*;

verus! {

/// Where the Control-Client stands in the dialogue.
#[derive(Clone, Copy, Debug, PartialEq, Eq, Structural)]
pub enum ClientPhase {
    AwaitGreeting,
    GreetingRead,
    SendSetUp,
    AwaitStart,
    StartRead,
    SendRequest,
    AwaitAccept,
    AcceptRead,
    SendStart,
    AwaitStartAck,
    StartAckRead,
    Running,
    SendStop,
    Done,
    Failed,
}

/// Why the Control-Client gave up the session.
#[derive(Clone, Copy, Debug, PartialEq, Eq, Structural)]
pub enum ControlClientError {
    /// Reading the named message from the stream failed.
    ReadError(ControlMessages),
    /// Writing the named message to the stream failed.
    WriteError(ControlMessages),
    /// The named message was not a valid image.
    WireConversionError(ControlMessages, WireError),
    /// The Server answered the named message with something other than Ok.
    NotAccepted(ControlMessages, Accept),
    /// The Server does not offer unauthenticated mode.
    ModeNotOffered,
    /// The named message does not come next in the dialogue.
    OutOfOrder(ControlMessages),
    /// The stream has no local address.
    NotBound,
    /// The stream has no peer.
    ServerNotConnected,
}

/// The error reading an image earns, when `checked` says whether it parsed.
pub open spec fn read_error(checked: Result<(), WireError>, msg: ControlMessages) -> Option<
    ControlClientError,
> {
    match checked {
        Err(e) => Some(ControlClientError::WireConversionError(msg, e)),
        Ok(_) => None,
    }
}

/// The error a Server-Greeting image earns, if any.
pub open spec fn greeting_error(b: Seq<u8>) -> Option<ControlClientError> {
    match ServerGreeting::check(b) {
        Err(e) => Some(ControlClientError::WireConversionError(ControlMessages::ServerGreeting, e)),
        Ok(_) => if offers(u32_at(b, 12), SecurityMode::Unauthenticated) {
            None
        } else {
            Some(ControlClientError::ModeNotOffered)
        },
    }
}

/// The error a Server-Start image earns, if any.
pub open spec fn server_start_error(b: Seq<u8>) -> Option<ControlClientError> {
    accept_reply_error(ServerStart::check(b), b, 15, ControlMessages::ServerStart)
}

/// The error an Accept-Session image earns, if any.
pub open spec fn accept_session_error(b: Seq<u8>) -> Option<ControlClientError> {
    accept_reply_error(AcceptSession::check(b), b, 0, ControlMessages::AcceptSession)
}

/// The error a Start-Ack image earns, if any.
pub open spec fn start_ack_error(b: Seq<u8>) -> Option<ControlClientError> {
    accept_reply_error(StartAck::check(b), b, 0, ControlMessages::StartAck)
}

/// A reply that parsed (`checked`) must also carry Accept Ok at offset `at`.
pub open spec fn accept_reply_error(
    checked: Result<(), WireError>,
    b: Seq<u8>,
    at: int,
    msg: ControlMessages,
) -> Option<ControlClientError> {
    match checked {
        Err(e) => Some(ControlClientError::WireConversionError(msg, e)),
        Ok(_) => if b[at] == 0 {
            None
        } else {
            Some(
                ControlClientError::NotAccepted(
                    msg,
                    crate::codes::accept_of(b[at])->Some_0,
                ),
            )
        },
    }
}

/// The Control-Client's state.
#[derive(Debug)]
pub struct ControlClient {
    pub phase: ClientPhase,
}

impl ControlClient {
    /// A Control-Client that waits for the Server-Greeting.
    pub fn new() -> (r: ControlClient)
        ensures
            r.phase == ClientPhase::AwaitGreeting,
    {
        ControlClient { phase: ClientPhase::AwaitGreeting }
    }

    pub fn phase(&self) -> (r: ClientPhase)
        ensures
            r == self.phase,
    {
        self.phase
    }

    /// Reads the Server-Greeting image.
    pub fn read_server_greeting(&mut self, buf: &[u8]) -> (r: Result<ServerGreeting, ControlClientError>)
        ensures
            old(self).phase != ClientPhase::AwaitGreeting ==> r == Err::<ServerGreeting, ControlClientError>(
                ControlClientError::OutOfOrder(ControlMessages::ServerGreeting),
            ) && final(self).phase == old(self).phase,
            old(self).phase == ClientPhase::AwaitGreeting ==> match r {
                Ok(m) => ServerGreeting::check(buf@) is Ok && ServerGreeting::decodes(buf@, m) && final(self).phase
                    == ClientPhase::GreetingRead,
                Err(e) => read_error(ServerGreeting::check(buf@), ControlMessages::ServerGreeting) == Some(e)
                    && final(self).phase == ClientPhase::Failed,
            },
    {
        if !matches!(self.phase, ClientPhase::AwaitGreeting) {
            return Err(ControlClientError::OutOfOrder(ControlMessages::ServerGreeting));
        }
        match ServerGreeting::from_bytes(buf) {
            Err(e) => {
                self.phase = ClientPhase::Failed;
                Err(ControlClientError::WireConversionError(ControlMessages::ServerGreeting, e))
            },
            Ok(m) => {
                self.phase = ClientPhase::GreetingRead;
                Ok(m)
            },
        }
    }

    /// The greeting must offer unauthenticated mode; then Set-Up-Response comes next.
    pub fn accept_server_greeting(&mut self, g: &ServerGreeting) -> (r: Result<(), ControlClientError>)
        ensures
            old(self).phase != ClientPhase::GreetingRead ==> r == Err::<(), ControlClientError>(
                ControlClientError::OutOfOrder(ControlMessages::ServerGreeting),
            ) && final(self).phase == old(self).phase,
            old(self).phase == ClientPhase::GreetingRead ==> if offers(
                g.mode,
                SecurityMode::Unauthenticated,
            ) {
                r is Ok && final(self).phase == ClientPhase::SendSetUp
            } else {
                r == Err::<(), ControlClientError>(ControlClientError::ModeNotOffered)
                    && final(self).phase == ClientPhase::Failed
            },
    {
        if !matches!(self.phase, ClientPhase::GreetingRead) {
            return Err(ControlClientError::OutOfOrder(ControlMessages::ServerGreeting));
        }
        if g.has_mode(SecurityMode::Unauthenticated) {
            self.phase = ClientPhase::SendSetUp;
            Ok(())
        } else {
            self.phase = ClientPhase::Failed;
            Err(ControlClientError::ModeNotOffered)
        }
    }

    /// The Set-Up-Response selecting unauthenticated mode.
    pub fn send_set_up_response(&mut self) -> (r: Result<Vec<u8>, ControlClientError>)
        ensures
            old(self).phase != ClientPhase::SendSetUp ==> r == Err::<Vec<u8>, ControlClientError>(
                ControlClientError::OutOfOrder(ControlMessages::SetUpResponse),
            ) && final(self).phase == old(self).phase,
            old(self).phase == ClientPhase::SendSetUp ==> r is Ok && r->Ok_0@ == set_up_bytes()
                && final(self).phase == ClientPhase::AwaitStart,
    {
        if !matches!(self.phase, ClientPhase::SendSetUp) {
            return Err(ControlClientError::OutOfOrder(ControlMessages::SetUpResponse));
        }
        match SetUpResponse::new(SecurityMode::Unauthenticated) {
            Ok(m) => {
                self.phase = ClientPhase::AwaitStart;
                Ok(m.to_bytes())
            },
            Err(_) => {
                self.phase = ClientPhase::Failed;
                Err(ControlClientError::ModeNotOffered)
            },
        }
    }

    /// Reads the Server-Start image.
    pub fn read_server_start(&mut self, buf: &[u8]) -> (r: Result<ServerStart, ControlClientError>)
        ensures
            old(self).phase != ClientPhase::AwaitStart ==> r == Err::<ServerStart, ControlClientError>(
                ControlClientError::OutOfOrder(ControlMessages::ServerStart),
            ) && final(self).phase == old(self).phase,
            old(self).phase == ClientPhase::AwaitStart ==> match r {
                Ok(m) => ServerStart::check(buf@) is Ok && ServerStart::decodes(buf@, m) && final(self).phase
                    == ClientPhase::StartRead,
                Err(e) => read_error(ServerStart::check(buf@), ControlMessages::ServerStart) == Some(e)
                    && final(self).phase == ClientPhase::Failed,
            },
    {
        if !matches!(self.phase, ClientPhase::AwaitStart) {
            return Err(ControlClientError::OutOfOrder(ControlMessages::ServerStart));
        }
        match ServerStart::from_bytes(buf) {
            Err(e) => {
                self.phase = ClientPhase::Failed;
                Err(ControlClientError::WireConversionError(ControlMessages::ServerStart, e))
            },
            Ok(m) => {
                self.phase = ClientPhase::StartRead;
                Ok(m)
            },
        }
    }

    /// The Server-Start must accept; then the request comes next.
    pub fn accept_server_start(&mut self, m: &ServerStart) -> (r: Result<(), ControlClientError>)
        ensures
            old(self).phase != ClientPhase::StartRead ==> r == Err::<(), ControlClientError>(
                ControlClientError::OutOfOrder(ControlMessages::ServerStart),
            ) && final(self).phase == old(self).phase,
            old(self).phase == ClientPhase::StartRead ==> if m.accept == Accept::Accepted {
                r is Ok && final(self).phase == ClientPhase::SendRequest
            } else {
                r == Err::<(), ControlClientError>(
                    ControlClientError::NotAccepted(ControlMessages::ServerStart, m.accept),
                ) && final(self).phase == ClientPhase::Failed
            },
    {
        if !matches!(self.phase, ClientPhase::StartRead) {
            return Err(ControlClientError::OutOfOrder(ControlMessages::ServerStart));
        }
        if m.accept.is_ok() {
            self.phase = ClientPhase::SendRequest;
            Ok(())
        } else {
            self.phase = ClientPhase::Failed;
            Err(ControlClientError::NotAccepted(ControlMessages::ServerStart, m.accept))
        }
    }

    /// The Request-TW-Session for a Session-Sender at `sender_address` and
    /// `controller_port` and a Session-Reflector at `receiver_address` and
    /// `session_reflector_port`, starting now.
    pub fn send_request_tw_session(
        &mut self,
        sender_address: u32,
        receiver_address: u32,
        session_reflector_port: u16,
        controller_port: u16,
        timeout: u64,
    ) -> (r: Result<(RequestTwSession, Vec<u8>), ControlClientError>)
        ensures
            old(self).phase != ClientPhase::SendRequest ==> r == Err::<
                (RequestTwSession, Vec<u8>),
                ControlClientError,
            >(ControlClientError::OutOfOrder(ControlMessages::RequestTwSession))
                && final(self).phase == old(self).phase,
            old(self).phase == ClientPhase::SendRequest ==> r is Ok && final(self).phase
                == ClientPhase::AwaitAccept && r->Ok_0.0.requests(
                sender_address,
                controller_port,
                receiver_address,
                session_reflector_port,
                timeout,
            ) && r->Ok_0.1@ == r->Ok_0.0.wire(),
    {
        if !matches!(self.phase, ClientPhase::SendRequest) {
            return Err(ControlClientError::OutOfOrder(ControlMessages::RequestTwSession));
        }
        let request = RequestTwSession::new(
            sender_address,
            controller_port,
            receiver_address,
            session_reflector_port,
            None,
            timeout,
        );
        let bytes = request.to_bytes();
        self.phase = ClientPhase::AwaitAccept;
        Ok((request, bytes))
    }

    /// Reads the Accept-Session image, whatever answer it carries.
    pub fn read_accept_session(&mut self, buf: &[u8]) -> (r: Result<AcceptSession, ControlClientError>)
        ensures
            old(self).phase != ClientPhase::AwaitAccept ==> r == Err::<AcceptSession, ControlClientError>(
                ControlClientError::OutOfOrder(ControlMessages::AcceptSession),
            ) && final(self).phase == old(self).phase,
            old(self).phase == ClientPhase::AwaitAccept ==> match r {
                Ok(m) => AcceptSession::check(buf@) is Ok && AcceptSession::decodes(buf@, m) && final(self).phase
                    == ClientPhase::AcceptRead,
                Err(e) => read_error(AcceptSession::check(buf@), ControlMessages::AcceptSession) == Some(e)
                    && final(self).phase == ClientPhase::Failed,
            },
    {
        if !matches!(self.phase, ClientPhase::AwaitAccept) {
            return Err(ControlClientError::OutOfOrder(ControlMessages::AcceptSession));
        }
        match AcceptSession::from_bytes(buf) {
            Err(e) => {
                self.phase = ClientPhase::Failed;
                Err(ControlClientError::WireConversionError(ControlMessages::AcceptSession, e))
            },
            Ok(m) => {
                self.phase = ClientPhase::AcceptRead;
                Ok(m)
            },
        }
    }

    /// The Accept-Session must accept; its port is then the one the Session-Sender
    /// sends to, and Start-Sessions comes next.
    pub fn publish_reflector_port(&mut self, m: &AcceptSession) -> (r: Result<u16, ControlClientError>)
        ensures
            old(self).phase != ClientPhase::AcceptRead ==> r == Err::<u16, ControlClientError>(
                ControlClientError::OutOfOrder(ControlMessages::AcceptSession),
            ) && final(self).phase == old(self).phase,
            old(self).phase == ClientPhase::AcceptRead ==> if m.accept == Accept::Accepted {
                r == Ok::<u16, ControlClientError>(m.port) && final(self).phase
                    == ClientPhase::SendStart
            } else {
                r == Err::<u16, ControlClientError>(
                    ControlClientError::NotAccepted(ControlMessages::AcceptSession, m.accept),
                ) && final(self).phase == ClientPhase::Failed
            },
    {
        if !matches!(self.phase, ClientPhase::AcceptRead) {
            return Err(ControlClientError::OutOfOrder(ControlMessages::AcceptSession));
        }
        if m.accept.is_ok() {
            self.phase = ClientPhase::SendStart;
            Ok(m.port)
        } else {
            self.phase = ClientPhase::Failed;
            Err(ControlClientError::NotAccepted(ControlMessages::AcceptSession, m.accept))
        }
    }

    /// The Start-Sessions command.
    pub fn send_start_sessions(&mut self) -> (r: Result<Vec<u8>, ControlClientError>)
        ensures
            old(self).phase != ClientPhase::SendStart ==> r == Err::<Vec<u8>, ControlClientError>(
                ControlClientError::OutOfOrder(ControlMessages::StartSessions),
            ) && final(self).phase == old(self).phase,
            old(self).phase == ClientPhase::SendStart ==> r is Ok && r->Ok_0@
                == start_sessions_bytes() && final(self).phase == ClientPhase::AwaitStartAck,
    {
        if !matches!(self.phase, ClientPhase::SendStart) {
            return Err(ControlClientError::OutOfOrder(ControlMessages::StartSessions));
        }
        self.phase = ClientPhase::AwaitStartAck;
        Ok(StartSessions::new().to_bytes())
    }

    /// Reads the Start-Ack image, whatever answer it carries.
    pub fn read_start_ack(&mut self, buf: &[u8]) -> (r: Result<StartAck, ControlClientError>)
        ensures
            old(self).phase != ClientPhase::AwaitStartAck ==> r == Err::<StartAck, ControlClientError>(
                ControlClientError::OutOfOrder(ControlMessages::StartAck),
            ) && final(self).phase == old(self).phase,
            old(self).phase == ClientPhase::AwaitStartAck ==> match r {
                Ok(m) => StartAck::check(buf@) is Ok && StartAck::decodes(buf@, m) && final(self).phase
                    == ClientPhase::StartAckRead,
                Err(e) => read_error(StartAck::check(buf@), ControlMessages::StartAck) == Some(e)
                    && final(self).phase == ClientPhase::Failed,
            },
    {
        if !matches!(self.phase, ClientPhase::AwaitStartAck) {
            return Err(ControlClientError::OutOfOrder(ControlMessages::StartAck));
        }
        match StartAck::from_bytes(buf) {
            Err(e) => {
                self.phase = ClientPhase::Failed;
                Err(ControlClientError::WireConversionError(ControlMessages::StartAck, e))
            },
            Ok(m) => {
                self.phase = ClientPhase::StartAckRead;
                Ok(m)
            },
        }
    }

    /// The Start-Ack must accept; then the Session-Sender may send.
    pub fn release_session_sender(&mut self, m: &StartAck) -> (r: Result<(), ControlClientError>)
        ensures
            old(self).phase != ClientPhase::StartAckRead ==> r == Err::<(), ControlClientError>(
                ControlClientError::OutOfOrder(ControlMessages::StartAck),
            ) && final(self).phase == old(self).phase,
            old(self).phase == ClientPhase::StartAckRead ==> if m.accept == Accept::Accepted {
                r is Ok && final(self).phase == ClientPhase::Running
            } else {
                r == Err::<(), ControlClientError>(
                    ControlClientError::NotAccepted(ControlMessages::StartAck, m.accept),
                ) && final(self).phase == ClientPhase::Failed
            },
    {
        if !matches!(self.phase, ClientPhase::StartAckRead) {
            return Err(ControlClientError::OutOfOrder(ControlMessages::StartAck));
        }
        if m.accept.is_ok() {
            self.phase = ClientPhase::Running;
            Ok(())
        } else {
            self.phase = ClientPhase::Failed;
            Err(ControlClientError::NotAccepted(ControlMessages::StartAck, m.accept))
        }
    }

    /// The Session-Sender has finished: Stop-Sessions comes next.
    pub fn test_complete(&mut self)
        ensures
            old(self).phase == ClientPhase::Running ==> final(self).phase == ClientPhase::SendStop,
            old(self).phase != ClientPhase::Running ==> final(self).phase == old(self).phase,
    {
        if matches!(self.phase, ClientPhase::Running) {
            self.phase = ClientPhase::SendStop;
        }
    }

    /// The Stop-Sessions command, reporting a normal end.
    pub fn send_stop_sessions(&mut self) -> (r: Result<Vec<u8>, ControlClientError>)
        ensures
            old(self).phase != ClientPhase::SendStop ==> r == Err::<Vec<u8>, ControlClientError>(
                ControlClientError::OutOfOrder(ControlMessages::StopSessions),
            ) && final(self).phase == old(self).phase,
            old(self).phase == ClientPhase::SendStop ==> r is Ok && r->Ok_0@
                == stop_sessions_bytes() && final(self).phase == ClientPhase::Done,
    {
        if !matches!(self.phase, ClientPhase::SendStop) {
            return Err(ControlClientError::OutOfOrder(ControlMessages::StopSessions));
        }
        self.phase = ClientPhase::Done;
        Ok(StopSessions::new(Accept::Accepted).to_bytes())
    }
}

impl Default for ControlClient {
    fn default() -> (r: ControlClient)
        ensures
            r.phase == ClientPhase::AwaitGreeting,
    {
        ControlClient::new()
    }
}

/// The first error a transcript of Server replies earns, if any.
pub open spec fn transcript_error(
    greeting: Seq<u8>,
    server_start: Seq<u8>,
    accept_session: Seq<u8>,
    start_ack: Seq<u8>,
) -> Option<ControlClientError> {
    if greeting_error(greeting) is Some {
        greeting_error(greeting)
    } else if server_start_error(server_start) is Some {
        server_start_error(server_start)
    } else if accept_session_error(accept_session) is Some {
        accept_session_error(accept_session)
    } else {
        start_ack_error(start_ack)
    }
}

/// What a Control-Client writes over a whole dialogue whose request is `req`.
pub open spec fn dialogue_bytes(req: RequestTwSession) -> Seq<u8> {
    set_up_bytes() + req.wire() + start_sessions_bytes() + stop_sessions_bytes()
}

/// Runs the whole dialogue over the Server's four replies, with a Session-Sender
/// that completes at once, and returns all the Control-Client writes: Set-Up-Response,
/// Request-TW-Session, Start-Sessions and Stop-Sessions, and nothing else. The
/// first reply that is malformed or refuses ends the dialogue with its error.
pub fn replay_transcript(
    greeting: &[u8],
    server_start: &[u8],
    accept_session: &[u8],
    start_ack: &[u8],
    sender_address: u32,
    receiver_address: u32,
    session_reflector_port: u16,
    controller_port: u16,
    timeout: u64,
) -> (r: Result<Vec<u8>, ControlClientError>)
    ensures
        r is Ok <==> transcript_error(greeting@, server_start@, accept_session@, start_ack@) is None,
        match r {
            Ok(out) => exists|req: RequestTwSession|
                #[trigger] req.requests(
                    sender_address,
                    controller_port,
                    receiver_address,
                    session_reflector_port,
                    timeout,
                ) && out@ == dialogue_bytes(req),
            Err(e) => transcript_error(greeting@, server_start@, accept_session@, start_ack@)
                == Some(e),
        },
{
    let mut client = ControlClient::new();
    let mut out: Vec<u8> = Vec::new();
    let g = match client.read_server_greeting(greeting) {
        Err(e) => {
            return Err(e);
        },
        Ok(g) => g,
    };
    match client.accept_server_greeting(&g) {
        Err(e) => {
            return Err(e);
        },
        Ok(_) => {},
    }
    let set_up = match client.send_set_up_response() {
        Ok(b) => b,
        Err(e) => {
            return Err(e);
        },
    };
    let m = match client.read_server_start(server_start) {
        Err(e) => {
            return Err(e);
        },
        Ok(m) => m,
    };
    match client.accept_server_start(&m) {
        Err(e) => {
            return Err(e);
        },
        Ok(_) => {},
    }
    let (req, request) = match client.send_request_tw_session(
        sender_address,
        receiver_address,
        session_reflector_port,
        controller_port,
        timeout,
    ) {
        Ok(x) => x,
        Err(e) => {
            return Err(e);
        },
    };
    let m = match client.read_accept_session(accept_session) {
        Err(e) => {
            return Err(e);
        },
        Ok(m) => m,
    };
    match client.publish_reflector_port(&m) {
        Err(e) => {
            return Err(e);
        },
        Ok(_) => {},
    }
    let start = match client.send_start_sessions() {
        Ok(b) => b,
        Err(e) => {
            return Err(e);
        },
    };
    let m = match client.read_start_ack(start_ack) {
        Err(e) => {
            return Err(e);
        },
        Ok(m) => m,
    };
    match client.release_session_sender(&m) {
        Err(e) => {
            return Err(e);
        },
        Ok(_) => {},
    }
    client.test_complete();
    let stop = match client.send_stop_sessions() {
        Ok(b) => b,
        Err(e) => {
            return Err(e);
        },
    };
    crate::wire::push_bytes(&mut out, set_up.as_slice());
    crate::wire::push_bytes(&mut out, request.as_slice());
    crate::wire::push_bytes(&mut out, start.as_slice());
    crate::wire::push_bytes(&mut out, stop.as_slice());
    assert(out@ =~= dialogue_bytes(req));
    Ok(out)
}

/// The image of the Set-Up-Response selecting unauthenticated mode.
pub open spec fn set_up_bytes() -> Seq<u8> {
    crate::wire::be32(1) + Seq::new(160, |_i| 0u8)
}

/// The image of Start-Sessions.
pub open spec fn start_sessions_bytes() -> Seq<u8> {
    seq![2u8] + Seq::new(31, |_i| 0u8)
}

/// The image of Stop-Sessions with Accept Ok.
pub open spec fn stop_sessions_bytes() -> Seq<u8> {
    seq![3u8, 0u8] + Seq::new(18, |_i| 0u8)
}

} // verus!
