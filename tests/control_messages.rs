use std::collections::HashSet;
use std::time::Duration;
use twamp_rs::accept_session::AcceptSession;
use twamp_rs::codes::{Accept, CommandNumber, SecurityMode, WireError};
use twamp_rs::request_tw_session::RequestTwSession;
use twamp_rs::server_greeting::ServerGreeting;
use twamp_rs::server_start::ServerStart;
use twamp_rs::set_up_response::SetUpResponse;
use twamp_rs::start_ack::StartAck;
use twamp_rs::start_sessions::StartSessions;
use twamp_rs::stop_sessions::StopSessions;
use twamp_rs::timestamp::TimeStamp;

const LOCALHOST: u32 = 0x7f00_0001;
const TIME: Duration = Duration::new(1713023152, 123456789);

fn request(sender_port: u16, receiver_port: u16, start_time: Option<TimeStamp>) -> RequestTwSession {
    RequestTwSession::new(LOCALHOST, sender_port, LOCALHOST, receiver_port, start_time, 900)
}

#[test]
fn accept_should_have_valid_discriminants() {
    let ok: u8 = Accept::Accepted.into();
    let failure: u8 = Accept::Failure.into();
    let internal_error: u8 = Accept::InternalError.into();
    let not_supported: u8 = Accept::NotSupported.into();
    let permanent_resource_limitation: u8 = Accept::PermanentResourceLimitation.into();
    let temporary_resource_limitation: u8 = Accept::TemporaryResourceLimitation.into();
    assert_eq!(ok, 0u8);
    assert_eq!(failure, 1u8);
    assert_eq!(internal_error, 2u8);
    assert_eq!(not_supported, 3u8);
    assert_eq!(permanent_resource_limitation, 4u8);
    assert_eq!(temporary_resource_limitation, 5u8);
}

#[test]
fn command_number_should_have_valid_discriminants() {
    let forbidden: u8 = CommandNumber::Forbidden.into();
    let start_session: u8 = CommandNumber::StartSessions.into();
    let stop_session: u8 = CommandNumber::StopSessions.into();
    let request_tw_session: u8 = CommandNumber::RequestTwSession.into();
    let experimentation: u8 = CommandNumber::Experimentation.into();
    assert_eq!(forbidden, 1u8);
    assert_eq!(start_session, 2u8);
    assert_eq!(stop_session, 3u8);
    assert_eq!(request_tw_session, 5u8);
    assert_eq!(experimentation, 6u8);
}

#[test]
fn security_mode_should_have_valid_discriminants() {
    let reserved: u32 = SecurityMode::Reserved.into();
    let unauthenticated: u32 = SecurityMode::Unauthenticated.into();
    let authenticated: u32 = SecurityMode::Authenticated.into();
    let encrypted: u32 = SecurityMode::Encrypted.into();
    assert_eq!(reserved, 0u32);
    assert_eq!(unauthenticated, 1u32);
    assert_eq!(authenticated, 2u32);
    assert_eq!(encrypted, 4u32);
}

#[test]
fn accept_codes_decode_back() {
    for v in 0u8..=255 {
        match Accept::from_code(v) {
            Some(a) => assert_eq!(a.code(), v),
            None => assert!(v > 5),
        }
    }
}

#[test]
fn accept_session_construct_with_accept_ok() {
    let accept = Accept::Accepted;
    let accept_session = AcceptSession::new(accept, 0, 0, 0);
    assert_eq!(accept_session.accept, accept);
}

#[test]
fn server_start_create_server_start_with_accept_ok() {
    let accept = Accept::Accepted;
    let server_start = ServerStart::new(accept, TimeStamp::from_duration(TIME));
    let server_start_accept: u8 = server_start.accept.into();
    let expected: u8 = accept.into();
    assert_eq!(server_start_accept, expected);
}

#[test]
fn start_ack_construct_with_accept_ok() {
    let accept = Accept::Accepted;
    let start_ack = StartAck::new(accept);
    assert_eq!(start_ack.accept, accept);
}

#[test]
fn accept_session_construct_with_accept_failure() {
    let accept = Accept::Failure;
    let accept_session = AcceptSession::new(accept, 0, 0, 0);
    assert_eq!(accept_session.accept, accept);
}

#[test]
fn server_start_create_server_start_with_accept_failure() {
    let accept = Accept::Failure;
    let server_start = ServerStart::new(accept, TimeStamp::from_duration(TIME));
    let server_start_accept: u8 = server_start.accept.into();
    let expected: u8 = accept.into();
    assert_eq!(server_start_accept, expected);
}

#[test]
fn start_ack_construct_with_accept_failure() {
    let accept = Accept::Failure;
    let start_ack = StartAck::new(accept);
    assert_eq!(start_ack.accept, accept);
}

#[test]
fn accept_session_construct_with_accept_internal_error() {
    let accept = Accept::InternalError;
    let accept_session = AcceptSession::new(accept, 0, 0, 0);
    assert_eq!(accept_session.accept, accept);
}

#[test]
fn server_start_create_server_start_with_accept_internal_error() {
    let accept = Accept::InternalError;
    let server_start = ServerStart::new(accept, TimeStamp::from_duration(TIME));
    let server_start_accept: u8 = server_start.accept.into();
    let expected: u8 = accept.into();
    assert_eq!(server_start_accept, expected);
}

#[test]
fn start_ack_construct_with_accept_internal_error() {
    let accept = Accept::InternalError;
    let start_ack = StartAck::new(accept);
    assert_eq!(start_ack.accept, accept);
}

#[test]
fn accept_session_construct_with_accept_not_supported() {
    let accept = Accept::NotSupported;
    let accept_session = AcceptSession::new(accept, 0, 0, 0);
    assert_eq!(accept_session.accept, accept);
}

#[test]
fn server_start_create_server_start_with_accept_not_supported() {
    let accept = Accept::NotSupported;
    let server_start = ServerStart::new(accept, TimeStamp::from_duration(TIME));
    let server_start_accept: u8 = server_start.accept.into();
    let expected: u8 = accept.into();
    assert_eq!(server_start_accept, expected);
}

#[test]
fn start_ack_construct_with_accept_not_supported() {
    let accept = Accept::NotSupported;
    let start_ack = StartAck::new(accept);
    assert_eq!(start_ack.accept, accept);
}

#[test]
fn accept_session_construct_with_accept_permanent_resource_limitation() {
    let accept = Accept::PermanentResourceLimitation;
    let accept_session = AcceptSession::new(accept, 0, 0, 0);
    assert_eq!(accept_session.accept, accept);
}

#[test]
fn server_start_create_server_start_with_accept_permanent_resource_limitation() {
    let accept = Accept::PermanentResourceLimitation;
    let server_start = ServerStart::new(accept, TimeStamp::from_duration(TIME));
    let server_start_accept: u8 = server_start.accept.into();
    let expected: u8 = accept.into();
    assert_eq!(server_start_accept, expected);
}

#[test]
fn start_ack_construct_with_accept_permanent_resource_limitation() {
    let accept = Accept::PermanentResourceLimitation;
    let start_ack = StartAck::new(accept);
    assert_eq!(start_ack.accept, accept);
}

#[test]
fn accept_session_construct_with_accept_temporary_resource_limitation() {
    let accept = Accept::TemporaryResourceLimitation;
    let accept_session = AcceptSession::new(accept, 0, 0, 0);
    assert_eq!(accept_session.accept, accept);
}

#[test]
fn server_start_create_server_start_with_accept_temporary_resource_limitation() {
    let accept = Accept::TemporaryResourceLimitation;
    let server_start = ServerStart::new(accept, TimeStamp::from_duration(TIME));
    let server_start_accept: u8 = server_start.accept.into();
    let expected: u8 = accept.into();
    assert_eq!(server_start_accept, expected);
}

#[test]
fn start_ack_construct_with_accept_temporary_resource_limitation() {
    let accept = Accept::TemporaryResourceLimitation;
    let start_ack = StartAck::new(accept);
    assert_eq!(start_ack.accept, accept);
}

#[test]
fn port_is_assigned() {
    let port = 12345u16;
    let accept_session = AcceptSession::new(Accept::Accepted, port, 0, 0);
    assert_eq!(accept_session.port, port);
}

#[test]
fn reflected_octets_is_assigned() {
    let reflected_octets = 0;
    let accept_session = AcceptSession::new(Accept::Accepted, 0, reflected_octets, 0);
    assert_eq!(accept_session.reflected_octets, reflected_octets);
}

#[test]
fn server_octets_is_assigned() {
    let server_octets = 0;
    let accept_session = AcceptSession::new(Accept::Accepted, 0, 0, server_octets);
    assert_eq!(accept_session.server_octets, server_octets);
}

#[test]
fn first_mbz_is_zero() {
    let accept_session = AcceptSession::new(Accept::Accepted, 0, 0, 0);
    assert_eq!(accept_session.mbz_first, 0);
}

#[test]
fn second_mbz_is_zero() {
    let accept_session = AcceptSession::new(Accept::Accepted, 0, 0, 0);
    assert_eq!(accept_session.mbz_second, [0; 8]);
}

#[test]
fn should_have_correct_size_of_struct() {
    assert_eq!(AcceptSession::SERIALIZED_SIZE, 48);
}

#[test]
fn accept_session_should_serialize_into_correct_length_of_bytes() {
    let accept_session = AcceptSession::new(Accept::Accepted, 0, 0, 0);
    let encoded = accept_session.to_bytes();
    assert_eq!(encoded.len(), 48);
}

#[test]
fn accept_session_should_deserialize_into_correct_length_of_bytes() {
    let accept_session = AcceptSession::new(Accept::Accepted, 0, 0, 0);
    let encoded = accept_session.to_bytes();
    let val = AcceptSession::from_bytes(&encoded).unwrap();
    assert_eq!(val, accept_session);
}

#[test]
fn accept_session_wire_layout() {
    let m = AcceptSession::new(Accept::Failure, 0x1234, 7, 9);
    let b = m.to_bytes();
    assert_eq!(&b[0..4], &[1, 0, 0x12, 0x34]);
    assert_eq!(&b[20..24], &[0, 7, 0, 9]);
    assert!(b[24..].iter().all(|x| *x == 0));
}

#[test]
fn accept_session_rejects_mbz_and_unknown_accept() {
    let good = AcceptSession::new(Accept::Accepted, 862, 0, 0).to_bytes();
    let mut b = good.clone();
    b[1] = 0x80;
    assert_eq!(AcceptSession::from_bytes(&b), Err(WireError::MustBeZero));
    let mut b = good.clone();
    b[27] = 1;
    assert_eq!(AcceptSession::from_bytes(&b), Err(WireError::MustBeZero));
    let mut b = good.clone();
    b[0] = 6;
    assert_eq!(AcceptSession::from_bytes(&b), Err(WireError::Accept));
    assert_eq!(AcceptSession::from_bytes(&good[..47]), Err(WireError::Length));
}

#[test]
fn request_tw_session_command_number_is_correct() {
    let request_tw_session = request(0, 0, None);
    assert_eq!(request_tw_session.command_number, CommandNumber::RequestTwSession);
}

#[test]
fn request_tw_session_first_mbz_are_zeros() {
    assert_eq!(request(0, 0, None).mbz_first, 0u8);
}

#[test]
fn ipvn_is_correct() {
    assert_eq!(request(0, 0, None).ipvn, 4u8);
}

#[test]
fn conf_sender_is_zero() {
    assert_eq!(request(0, 0, None).conf_sender, 0u8);
}

#[test]
fn conf_receiver_is_zero() {
    assert_eq!(request(0, 0, None).conf_receiver, 0u8);
}

#[test]
fn number_of_schedule_slots_is_zero() {
    assert_eq!(request(0, 0, None).number_of_schedule_slots, 0u32);
}

#[test]
fn number_of_packets_is_zero() {
    assert_eq!(request(0, 0, None).number_of_packets, 0u32);
}

#[test]
fn sender_port_is_assigned() {
    assert_eq!(request(12345, 0, None).sender_port, 12345);
}

#[test]
fn receiver_port_is_assigned() {
    assert_eq!(request(0, 12345, None).receiver_port, 12345);
}

#[test]
fn sender_address_is_assigned() {
    assert_eq!(request(0, 0, None).sender_address, LOCALHOST);
}

#[test]
fn sender_address_cont_is_mbz() {
    assert_eq!(request(0, 0, None).sender_address_cont, [0; 12]);
}

#[test]
fn receiver_address_is_assigned() {
    assert_eq!(request(0, 0, None).receiver_address, LOCALHOST);
}

#[test]
fn receiver_address_cont_is_mbz() {
    assert_eq!(request(0, 0, None).receiver_address_cont, [0; 12]);
}

#[test]
fn sid_is_zero() {
    assert_eq!(request(0, 0, None).sid, 0);
}

#[test]
fn start_time_is_assigned() {
    let timestamp = TimeStamp::default();
    let request_tw_session = request(0, 0, Some(timestamp));
    assert_eq!(request_tw_session.start_time, timestamp);
}

#[test]
fn request_tw_session_last_mbz_are_zeros() {
    assert_eq!(request(0, 0, None).mbz_last, 0);
}

#[test]
fn struct_serialized_has_size_acc_to_rfc() {
    let encoded = request(0, 0, None).to_bytes();
    assert_eq!(encoded.len(), 112)
}

#[test]
fn request_tw_session_deserialize_to_struct() {
    let request_tw_session = request(0, 0, None);
    let encoded = request_tw_session.to_bytes();
    let val = RequestTwSession::from_bytes(&encoded).unwrap();
    assert_eq!(val, request_tw_session)
}

#[test]
fn request_tw_session_should_have_correct_size() {
    assert_eq!(RequestTwSession::SERIALIZED_SIZE, 112)
}

#[test]
fn request_tw_session_should_serialize_correctly() {
    let encoded = request(0, 0, None).to_bytes();
    assert_eq!(encoded.len(), 112)
}

#[test]
fn request_tw_session_should_deserialize_to_struct() {
    let request_tw_session = request(4000, 5000, Some(TimeStamp::new(7, 8)));
    let encoded = request_tw_session.to_bytes();
    let decoded = RequestTwSession::from_bytes(&encoded).unwrap();
    assert_eq!(decoded, request_tw_session)
}

#[test]
fn request_tw_session_wire_layout() {
    let r = request(0x0102, 0x0304, Some(TimeStamp::new(0x0a0b0c0d, 0x01020304)));
    let b = r.to_bytes();
    assert_eq!(&b[0..4], &[5, 4, 0, 0]);
    assert_eq!(&b[12..20], &[1, 2, 3, 4, 0x7f, 0, 0, 1]);
    assert_eq!(&b[32..36], &[0x7f, 0, 0, 1]);
    assert_eq!(&b[68..76], &[0x0a, 0x0b, 0x0c, 0x0d, 1, 2, 3, 4]);
    assert_eq!(&b[76..84], &[0, 0, 0, 0, 0, 0, 0x03, 0x84]);
}

#[test]
fn request_tw_session_rejects_wrong_command_and_mbz() {
    let good = request(1, 2, None).to_bytes();
    for cmd in [0u8, 1, 2, 3, 4, 6, 255] {
        let mut b = good.clone();
        b[0] = cmd;
        assert_eq!(RequestTwSession::from_bytes(&b), Err(WireError::Command));
    }
    let mut b = good.clone();
    b[1] = 0x14;
    assert_eq!(RequestTwSession::from_bytes(&b), Err(WireError::MustBeZero));
    let mut b = good.clone();
    b[95] = 1;
    assert_eq!(RequestTwSession::from_bytes(&b), Err(WireError::MustBeZero));
}

#[test]
fn server_greeting_create_server_greeting_with_mode_reserved() {
    let server_greeting = ServerGreeting::new(&[SecurityMode::Reserved]);
    assert_eq!(server_greeting.mode, 0);
}

#[test]
fn server_greeting_create_server_greeting_with_mode_unauthenticated() {
    let server_greeting = ServerGreeting::new(&[SecurityMode::Unauthenticated]);
    assert_eq!(server_greeting.mode, 1);
}

#[test]
fn server_greeting_create_server_greeting_with_mode_auth() {
    let server_greeting = ServerGreeting::new(&[SecurityMode::Authenticated]);
    assert_eq!(server_greeting.mode, 2);
}

#[test]
fn server_greeting_create_server_greeting_with_mode_encrypted() {
    let server_greeting = ServerGreeting::new(&[SecurityMode::Encrypted]);
    assert_eq!(server_greeting.mode, 4);
}

#[test]
fn server_greeting_create_server_greeting_with_mode_mixed() {
    let server_greeting = ServerGreeting::new(&[SecurityMode::EncryptedControlUnauthTest]);
    assert_eq!(server_greeting.mode, 8);
}

#[test]
fn server_greeting_read_mode_reserved_in_reserved_greeting() {
    let server_greeting = ServerGreeting::new(&[SecurityMode::Reserved]);
    assert!(server_greeting.has_mode(SecurityMode::Reserved));
}

#[test]
fn server_greeting_read_mode_reserved_in_non_reserved_greeting_and_fail() {
    let server_greeting = ServerGreeting::new(&[SecurityMode::Unauthenticated]);
    assert!(!server_greeting.has_mode(SecurityMode::Reserved));
}

#[test]
fn server_greeting_read_mode_unauthenticated() {
    let server_greeting = ServerGreeting::new(&[SecurityMode::Unauthenticated]);
    assert!(server_greeting.has_mode(SecurityMode::Unauthenticated));
}

#[test]
fn server_greeting_read_mode_auth() {
    let server_greeting = ServerGreeting::new(&[SecurityMode::Authenticated]);
    assert!(server_greeting.has_mode(SecurityMode::Authenticated));
}

#[test]
fn server_greeting_read_mode_encrypted() {
    let server_greeting = ServerGreeting::new(&[SecurityMode::Encrypted]);
    assert!(server_greeting.has_mode(SecurityMode::Encrypted));
}

#[test]
fn server_greeting_read_mode_mixed() {
    let server_greeting = ServerGreeting::new(&[SecurityMode::EncryptedControlUnauthTest]);
    assert!(server_greeting.has_mode(SecurityMode::EncryptedControlUnauthTest));
}

fn all_modes() -> ServerGreeting {
    ServerGreeting::new(&[
        SecurityMode::Unauthenticated,
        SecurityMode::Authenticated,
        SecurityMode::Encrypted,
        SecurityMode::EncryptedControlUnauthTest,
    ])
}

#[test]
fn server_greeting_create_server_greeting_with_modes_unauth_and_auth_and_encrypted_and_mixed() {
    assert_eq!(all_modes().mode, 15);
}

#[test]
fn server_greeting_read_each_mode_from_unauth_and_auth_and_encrypted_and_mixed() {
    let server_greeting = all_modes();
    assert!(server_greeting.has_mode(SecurityMode::Unauthenticated));
    assert!(server_greeting.has_mode(SecurityMode::Authenticated));
    assert!(server_greeting.has_mode(SecurityMode::Encrypted));
    assert!(server_greeting.has_mode(SecurityMode::EncryptedControlUnauthTest));
}

#[test]
fn server_greeting_read_mode_unauth_in_reserved_greeting_and_fail() {
    let server_greeting = ServerGreeting::new(&[SecurityMode::Reserved]);
    assert!(!server_greeting.has_mode(SecurityMode::Unauthenticated));
}

#[test]
fn server_greeting_read_mode_auth_in_reserved_greeting_and_fail() {
    let server_greeting = ServerGreeting::new(&[SecurityMode::Reserved]);
    assert!(!server_greeting.has_mode(SecurityMode::Authenticated));
}

#[test]
fn server_greeting_read_mode_encrypted_in_reserved_greeting_and_fail() {
    let server_greeting = ServerGreeting::new(&[SecurityMode::Reserved]);
    assert!(!server_greeting.has_mode(SecurityMode::Encrypted));
}

#[test]
fn server_greeting_read_mode_mixed_in_reserved_greeting_and_fail() {
    let server_greeting = ServerGreeting::new(&[SecurityMode::Reserved]);
    assert!(!server_greeting.has_mode(SecurityMode::EncryptedControlUnauthTest));
}

#[test]
fn server_greeting_unused_are_zeros() {
    let server_greeting = ServerGreeting::new(&[SecurityMode::Reserved]);
    assert!(server_greeting.unused == [0; 12]);
}

#[test]
fn server_greeting_challenge_bytes_are_random() {
    let server_greeting = ServerGreeting::new(&[SecurityMode::Reserved]);
    let challenge_bytes_unique = server_greeting.challenge.iter().collect::<HashSet<_>>();
    assert!(challenge_bytes_unique.len() > 1);
}

#[test]
fn server_greeting_salt_bytes_are_random() {
    let server_greeting = ServerGreeting::new(&[SecurityMode::Reserved]);
    let salt_bytes_unique = server_greeting.salt.iter().collect::<HashSet<_>>();
    assert!(salt_bytes_unique.len() > 1);
}

#[test]
fn server_greeting_default_count_is_under_a_valid_range() {
    let server_greeting = ServerGreeting::new(&[SecurityMode::Reserved]);
    assert!(server_greeting.count.ge(&1024) && server_greeting.count.le(&32768));
}

#[test]
fn server_greeting_use_custom_count_value() {
    let count_value = 32769;
    let server_greeting = ServerGreeting::new(&[SecurityMode::Reserved]).with_count(count_value);
    assert_eq!(server_greeting.count, count_value);
    assert_eq!(server_greeting.count(), count_value);
}

#[test]
fn server_greeting_mbz_are_zeros() {
    let server_greeting = ServerGreeting::new(&[SecurityMode::Reserved]);
    assert!(server_greeting.mbz == [0; 12]);
}

#[test]
fn server_greeting_serialize_into_correct_length_of_bytes() {
    let server_greeting = ServerGreeting::new(&[SecurityMode::Unauthenticated]);
    let encoded = server_greeting.to_bytes();
    assert_eq!(encoded.len(), ServerGreeting::SERIALIZED_SIZE);
}

#[test]
fn server_greeting_deserialize_into_correct_struct() {
    let server_greeting = ServerGreeting::new(&[SecurityMode::Unauthenticated]);
    let encoded = server_greeting.to_bytes();
    let val = ServerGreeting::from_bytes(&encoded).unwrap();
    assert_eq!(val, server_greeting);
}

#[test]
fn server_greeting_rejects_mbz() {
    let good = ServerGreeting::new(&[SecurityMode::Unauthenticated]).to_bytes();
    assert_eq!(&good[12..16], &[0, 0, 0, 1]);
    assert_eq!(&good[48..52], &[0, 0, 4, 0]);
    for k in [0usize, 11, 52, 63] {
        let mut b = good.clone();
        b[k] = 0x01;
        assert_eq!(ServerGreeting::from_bytes(&b), Err(WireError::MustBeZero));
    }
    assert_eq!(ServerGreeting::from_bytes(&good[..63]), Err(WireError::Length));
}

#[test]
fn server_start_first_mbz_are_zeros() {
    let server_start = ServerStart::new(Accept::Accepted, TimeStamp::from_duration(TIME));
    assert!(server_start.mbz_start == [0; 15]);
}

#[test]
fn server_start_last_mbz_are_zeros() {
    let server_start = ServerStart::new(Accept::Accepted, TimeStamp::from_duration(TIME));
    assert!(server_start.mbz_end == [0; 8]);
}

#[test]
fn should_have_correct_bytes_of_struct() {
    assert_eq!(ServerStart::SERIALIZED_SIZE, 48);
}

#[test]
fn server_start_should_serialize_to_correct_bytes() {
    let server_start = ServerStart::new(Accept::Accepted, TimeStamp::from_duration(TIME));
    let encoded = server_start.to_bytes();
    assert_eq!(encoded.len(), ServerStart::SERIALIZED_SIZE);
}

#[test]
fn server_start_should_deserialize_to_correct_struct() {
    let server_start = ServerStart::new(Accept::Accepted, TimeStamp::from_duration(TIME));
    let encoded = server_start.to_bytes();
    let val = ServerStart::from_bytes(&encoded).unwrap();
    assert_eq!(val, server_start);
    assert_eq!(*val.accept(), Accept::Accepted);
    assert_eq!(*val.start_time(), TimeStamp::from_duration(TIME));
}

#[test]
fn server_start_rejects_mbz_injection() {
    let mut b = ServerStart::new(Accept::Accepted, TimeStamp::new(1, 2)).to_bytes();
    b[0] = 0x01;
    assert_eq!(ServerStart::from_bytes(&b), Err(WireError::MustBeZero));
}

#[test]
fn unused_key_id_in_unauth_mode() {
    let set_up_response = SetUpResponse::new(SecurityMode::Unauthenticated)
        .expect("should have created set_up_response.");
    assert_eq!(set_up_response.key_id.iter().fold(0, |acc, v| acc + v), 0);
}

#[test]
fn unused_token_in_unauth_mode() {
    let set_up_response = SetUpResponse::new(SecurityMode::Unauthenticated)
        .expect("should have created set_up_response.");
    assert_eq!(set_up_response.token.iter().fold(0, |acc, v| acc + v), 0);
}

#[test]
fn unused_client_iv_in_unauth_mode() {
    let set_up_response = SetUpResponse::new(SecurityMode::Unauthenticated)
        .expect("should have created set_up_response.");
    assert_eq!(set_up_response.client_iv.iter().fold(0, |acc, v| acc + v), 0);
}

#[test]
fn unused_key_id_in_reserved_mode() {
    let set_up_response = SetUpResponse::new(SecurityMode::Reserved)
        .expect("should have created set_up_response.");
    assert_eq!(set_up_response.key_id.iter().fold(0, |acc, v| acc + v), 0);
}

#[test]
fn unused_token_in_reserved_mode() {
    let set_up_response = SetUpResponse::new(SecurityMode::Reserved)
        .expect("should have created set_up_response.");
    assert_eq!(set_up_response.token.iter().fold(0, |acc, v| acc + v), 0);
}

#[test]
fn unused_client_iv_in_reserved_mode() {
    let set_up_response = SetUpResponse::new(SecurityMode::Reserved)
        .expect("should have created set_up_response.");
    assert_eq!(set_up_response.client_iv.iter().fold(0, |acc, v| acc + v), 0);
}

#[test]
#[should_panic]
fn panic_on_mode_auth() {
    SetUpResponse::new(SecurityMode::Authenticated).expect("should have created set_up_response.");
}

#[test]
#[should_panic]
fn panic_on_mode_encrypted() {
    SetUpResponse::new(SecurityMode::Encrypted).expect("should have created set_up_response.");
}

#[test]
#[should_panic]
fn panic_on_mode_mixed_security() {
    SetUpResponse::new(SecurityMode::EncryptedControlUnauthTest)
        .expect("should have created set_up_response.");
}

#[test]
fn serialize_to_correct_length_of_bytes() {
    let set_up_response = SetUpResponse::new(SecurityMode::Unauthenticated).unwrap();
    let encoded = set_up_response.to_bytes();
    assert_eq!(encoded.len(), 164)
}

#[test]
fn set_up_response_deserialize_to_struct() {
    let set_up_response = SetUpResponse::new(SecurityMode::Unauthenticated).unwrap();
    let encoded = set_up_response.to_bytes();
    let val = SetUpResponse::from_bytes(&encoded).unwrap();
    assert_eq!(val, set_up_response)
}

#[test]
fn set_up_response_should_have_correct_size() {
    assert_eq!(SetUpResponse::SERIALIZED_SIZE, 164)
}

#[test]
fn set_up_response_should_serialize_correctly() {
    let set_up_response = SetUpResponse::new(SecurityMode::Unauthenticated).unwrap();
    let encoded = set_up_response.to_bytes();
    assert_eq!(encoded.len(), 164);
    assert_eq!(&encoded[0..4], &[0, 0, 0, 1]);
}

#[test]
fn set_up_response_rejects_unknown_mode() {
    let mut b = SetUpResponse::new(SecurityMode::Unauthenticated).unwrap().to_bytes();
    b[3] = 3;
    assert_eq!(SetUpResponse::from_bytes(&b), Err(WireError::Mode));
}

#[test]
fn start_ack_mbz_is_zero() {
    let start_ack = StartAck::new(Accept::Accepted);
    assert_eq!(start_ack.mbz, [0; 15]);
}

#[test]
fn start_ack_serialize_to_bytes() {
    let start_ack = StartAck::new(Accept::Accepted).to_bytes();
    assert_eq!(start_ack.len(), 32);
}

#[test]
fn start_ack_deserialize_to_struct() {
    let start_ack_as_bytes = [0u8; 32];
    let start_ack = StartAck::from_bytes(&start_ack_as_bytes).unwrap();
    assert_eq!(start_ack.accept, Accept::Accepted);
    assert_eq!(start_ack.mbz, [0u8; 15]);
    assert_eq!(start_ack.hmac, [0u8; 16]);
}

#[test]
fn start_ack_rejects_mbz() {
    let mut b = [0u8; 32];
    b[15] = 0x40;
    assert_eq!(StartAck::from_bytes(&b), Err(WireError::MustBeZero));
}

#[test]
fn start_sessions_command_number_is_correct() {
    let start_sessions = StartSessions::new();
    assert_eq!(start_sessions.command_number, CommandNumber::StartSessions);
}

#[test]
fn start_sessions_mbz_is_zero() {
    let start_sessions = StartSessions::new();
    assert_eq!(start_sessions.mbz, [0; 15]);
}

#[test]
fn start_sessions_serialize_to_bytes() {
    let start_sessions = StartSessions::new().to_bytes();
    assert_eq!(start_sessions.len(), 32);
}

#[test]
fn start_sessions_deserialize_to_struct() {
    let mut start_sessions_as_bytes = [0u8; 32];
    start_sessions_as_bytes[0] = 0x02;
    let start_sessions = StartSessions::from_bytes(&start_sessions_as_bytes).unwrap();
    assert_eq!(start_sessions.command_number, CommandNumber::StartSessions);
    assert_eq!(start_sessions.mbz, [0u8; 15]);
    assert_eq!(start_sessions.hmac, [0u8; 16]);
}

#[test]
fn start_sessions_rejects_other_commands() {
    let mut b = StartSessions::new().to_bytes();
    b[0] = 3;
    assert_eq!(StartSessions::from_bytes(&b), Err(WireError::Command));
    b[0] = 2;
    b[1] = 1;
    assert_eq!(StartSessions::from_bytes(&b), Err(WireError::MustBeZero));
}

#[test]
fn stop_sessions_command_number_is_correct() {
    let stop_sessions = StopSessions::new(Accept::Accepted);
    assert_eq!(stop_sessions.command_number, CommandNumber::StopSessions);
}

#[test]
fn stop_sessions_mbz_is_zero() {
    let stop_sessions = StopSessions::new(Accept::Accepted);
    assert_eq!(stop_sessions.mbz, 0);
}

#[test]
fn stop_sessions_serialize_to_bytes() {
    let stop_sessions = StopSessions::new(Accept::Accepted).to_bytes();
    assert_eq!(stop_sessions.len(), 20);
}

#[test]
fn stop_sessions_round_trip_and_rejections() {
    let m = StopSessions::new(Accept::Failure);
    let b = m.to_bytes();
    assert_eq!(&b[0..4], &[3, 1, 0, 0]);
    assert_eq!(StopSessions::from_bytes(&b), Ok(m));
    let mut c = b.clone();
    c[0] = 5;
    assert_eq!(StopSessions::from_bytes(&c), Err(WireError::Command));
    let mut c = b.clone();
    c[3] = 1;
    assert_eq!(StopSessions::from_bytes(&c), Err(WireError::MustBeZero));
    let mut c = b.clone();
    c[1] = 9;
    assert_eq!(StopSessions::from_bytes(&c), Err(WireError::Accept));
}

#[test]
fn well_known_ports() {
    assert_eq!(twamp_rs::codes::TWAMP_CONTROL_WELL_KNOWN_PORT, 862);
    assert_eq!(twamp_rs::codes::TWAMP_TEST_WELL_KNOWN_PORT, 863);
}
