use twamp_rs::accept_session::AcceptSession;
use twamp_rs::codes::{Accept, ControlMessages, WireError};
use twamp_rs::control_client::{replay_transcript, ClientPhase, ControlClient, ControlClientError};
use twamp_rs::request_tw_session::RequestTwSession;
use twamp_rs::server::{Server, ServerError, ServerPhase};
use twamp_rs::server_greeting::ServerGreeting;
use twamp_rs::server_start::ServerStart;
use twamp_rs::session_reflector::SessionReflector;
use twamp_rs::session_sender::SessionSender;
use twamp_rs::set_up_response::SetUpResponse;
use twamp_rs::start_ack::StartAck;
use twamp_rs::start_sessions::StartSessions;
use twamp_rs::stop_sessions::StopSessions;
use twamp_rs::codes::SecurityMode;
use twamp_rs::timestamp::TimeStamp;

const CLIENT: u32 = 0x7f00_0001;
const RESPONDER: u32 = 0x7f00_0002;

fn server_replies() -> (Vec<u8>, Vec<u8>, Vec<u8>, Vec<u8>) {
    (
        ServerGreeting::new(&[SecurityMode::Unauthenticated]).to_bytes(),
        ServerStart::new(Accept::Accepted, TimeStamp::new(1, 2)).to_bytes(),
        AcceptSession::new(Accept::Accepted, 40000, 0, 0).to_bytes(),
        StartAck::new(Accept::Accepted).to_bytes(),
    )
}

#[test]
fn client_and_server_run_the_whole_dialogue() {
    let mut client = ControlClient::new();
    let mut server = Server::new();
    let (_, greeting) = server.send_server_greeting().unwrap();
    let g = client.read_server_greeting(&greeting).unwrap();
    client.accept_server_greeting(&g).unwrap();
    let set_up = client.send_set_up_response().unwrap();
    server.read_set_up_response(&set_up).unwrap();
    let start = server.send_server_start(TimeStamp::new(5, 6)).unwrap();
    let m = client.read_server_start(&start).unwrap();
    assert_eq!(*m.start_time(), TimeStamp::new(5, 6));
    client.accept_server_start(&m).unwrap();
    let (sent_request, request) = client.send_request_tw_session(CLIENT, RESPONDER, 862, 4000, 900).unwrap();
    let req = server.read_request_tw_session(&request).unwrap();
    assert_eq!(req, sent_request);
    assert_eq!(server.timeout, Some(900));

    let mut reflector = SessionReflector::from_request_tw_session(&req, 900);
    let (addr, port) = reflector.bind_target(true);
    assert_eq!((addr, port), (RESPONDER, 0));
    let bound = reflector.bound(51000);
    let accept = server.send_accept_session(bound).unwrap();
    let accepted = client.read_accept_session(&accept).unwrap();
    let port = client.publish_reflector_port(&accepted).unwrap();
    assert_eq!(port, 51000);
    let mut sender = SessionSender::new(RESPONDER, 10);
    assert_eq!(sender.reflector_port_received(port), (RESPONDER, 51000));

    let start_sessions = client.send_start_sessions().unwrap();
    server.read_start_sessions(&start_sessions).unwrap();
    let ack = server.send_start_ack().unwrap();
    let ack = client.read_start_ack(&ack).unwrap();
    client.release_session_sender(&ack).unwrap();
    assert_eq!(client.phase(), ClientPhase::Running);
    client.test_complete();
    let stop = client.send_stop_sessions().unwrap();
    let stop = server.read_stop_sessions(&stop).unwrap();
    assert_eq!(stop.accept, Accept::Accepted);
    assert_eq!(client.phase(), ClientPhase::Done);
    assert_eq!(server.phase, ServerPhase::Done);
}

#[test]
fn replayed_transcript_emits_exactly_the_client_messages() {
    let (g, s, a, k) = server_replies();
    let out = replay_transcript(&g, &s, &a, &k, CLIENT, RESPONDER, 862, 4000, 900).unwrap();
    assert_eq!(out.len(), 164 + 112 + 32 + 20);
    assert_eq!(&out[..164], &SetUpResponse::new(SecurityMode::Unauthenticated).unwrap().to_bytes()[..]);
    let req = RequestTwSession::from_bytes(&out[164..276]).unwrap();
    assert_eq!(req.sender_address, CLIENT);
    assert_eq!(req.sender_port, 4000);
    assert_eq!(req.receiver_address, RESPONDER);
    assert_eq!(req.receiver_port, 862);
    assert_eq!(req.timeout, 900);
    assert_eq!(&out[276..308], &StartSessions::new().to_bytes()[..]);
    assert_eq!(&out[308..], &StopSessions::new(Accept::Accepted).to_bytes()[..]);
}

#[test]
fn bad_accept_session_aborts_before_the_sender_is_released() {
    let (g, s, _, k) = server_replies();
    let a = AcceptSession::new(Accept::Failure, 40000, 0, 0).to_bytes();
    let r = replay_transcript(&g, &s, &a, &k, CLIENT, RESPONDER, 862, 4000, 900);
    assert_eq!(
        r,
        Err(ControlClientError::NotAccepted(ControlMessages::AcceptSession, Accept::Failure))
    );
    let mut client = ControlClient::new();
    let greeting = client.read_server_greeting(&g).unwrap();
    client.accept_server_greeting(&greeting).unwrap();
    client.send_set_up_response().unwrap();
    let start = client.read_server_start(&s).unwrap();
    client.accept_server_start(&start).unwrap();
    client.send_request_tw_session(CLIENT, RESPONDER, 862, 4000, 900).unwrap();
    let refused = client.read_accept_session(&a).unwrap();
    assert_eq!(refused.accept, Accept::Failure);
    assert_eq!(
        client.publish_reflector_port(&refused),
        Err(ControlClientError::NotAccepted(ControlMessages::AcceptSession, Accept::Failure))
    );
    assert_eq!(client.phase(), ClientPhase::Failed);
    assert!(client.send_start_sessions().is_err());
    assert!(client.read_start_ack(&k).is_err());
}

#[test]
fn mbz_injection_in_server_start_aborts_the_session() {
    let (g, mut s, a, k) = server_replies();
    s[0] = 0x01;
    let r = replay_transcript(&g, &s, &a, &k, CLIENT, RESPONDER, 862, 4000, 900);
    assert_eq!(
        r,
        Err(ControlClientError::WireConversionError(
            ControlMessages::ServerStart,
            WireError::MustBeZero
        ))
    );
}

#[test]
fn greeting_without_unauthenticated_mode_is_refused() {
    let (_, s, a, k) = server_replies();
    let g = ServerGreeting::new(&[SecurityMode::Authenticated]).to_bytes();
    let r = replay_transcript(&g, &s, &a, &k, CLIENT, RESPONDER, 862, 4000, 900);
    assert_eq!(r, Err(ControlClientError::ModeNotOffered));
}

#[test]
fn start_ack_refusal_is_reported() {
    let (g, s, a, _) = server_replies();
    let k = StartAck::new(Accept::TemporaryResourceLimitation).to_bytes();
    let r = replay_transcript(&g, &s, &a, &k, CLIENT, RESPONDER, 862, 4000, 900);
    assert_eq!(
        r,
        Err(ControlClientError::NotAccepted(
            ControlMessages::StartAck,
            Accept::TemporaryResourceLimitation
        ))
    );
}

#[test]
fn messages_out_of_order_are_refused() {
    let mut client = ControlClient::new();
    assert_eq!(
        client.send_stop_sessions(),
        Err(ControlClientError::OutOfOrder(ControlMessages::StopSessions))
    );
    assert_eq!(client.phase(), ClientPhase::AwaitGreeting);
    let mut server = Server::new();
    assert_eq!(
        server.send_start_ack(),
        Err(ServerError::OutOfOrder(ControlMessages::StartAck))
    );
}

#[test]
fn server_refuses_authenticated_set_up() {
    let mut server = Server::new();
    server.send_server_greeting().unwrap();
    let mut b = SetUpResponse::new(SecurityMode::Unauthenticated).unwrap().to_bytes();
    b[3] = 2;
    assert_eq!(
        server.read_set_up_response(&b),
        Err(ServerError::ModeNotSupported(SecurityMode::Authenticated))
    );
    assert_eq!(server.phase, ServerPhase::Failed);
}

#[test]
fn refusing_accept_session_is_read_then_rejected() {
    let (g, s, _, _) = server_replies();
    let mut client = ControlClient::new();
    let greeting = client.read_server_greeting(&g).unwrap();
    client.accept_server_greeting(&greeting).unwrap();
    client.send_set_up_response().unwrap();
    let start = client.read_server_start(&s).unwrap();
    client.accept_server_start(&start).unwrap();
    client.send_request_tw_session(CLIENT, RESPONDER, 862, 4000, 900).unwrap();
    let mut bytes = vec![1u8, 0, 0x03, 0x5e];
    bytes.extend_from_slice(&[0u8; 44]);
    let m = client.read_accept_session(&bytes).unwrap();
    assert_eq!(m.accept, Accept::Failure);
    assert_eq!(m.port, 862);
    assert_eq!(client.phase(), ClientPhase::AcceptRead);
    assert!(client.publish_reflector_port(&m).is_err());
    assert_eq!(client.send_start_sessions(), Err(ControlClientError::OutOfOrder(ControlMessages::StartSessions)));
}

#[test]
fn nonzero_hmac_is_rejected() {
    let mut b = StartSessions::new().to_bytes();
    b[31] = 1;
    assert_eq!(StartSessions::from_bytes(&b), Err(WireError::MustBeZero));
    let mut b = StartAck::new(Accept::Accepted).to_bytes();
    b[16] = 1;
    assert_eq!(StartAck::from_bytes(&b), Err(WireError::MustBeZero));
    let mut b = StopSessions::new(Accept::Accepted).to_bytes();
    b[19] = 1;
    assert_eq!(StopSessions::from_bytes(&b), Err(WireError::MustBeZero));
    let mut b = AcceptSession::new(Accept::Accepted, 1, 0, 0).to_bytes();
    b[40] = 1;
    assert_eq!(AcceptSession::from_bytes(&b), Err(WireError::MustBeZero));
    let mut b = RequestTwSession::new(CLIENT, 1, RESPONDER, 2, Some(TimeStamp::new(0, 0)), 5).to_bytes();
    b[111] = 1;
    assert_eq!(RequestTwSession::from_bytes(&b), Err(WireError::MustBeZero));
}
