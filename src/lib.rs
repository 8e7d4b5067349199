//! Two-Way Active Measurement Protocol (RFC 5357), unauthenticated mode.
//!
//! The library holds the wire codecs of TWAMP-Control and TWAMP-Test, the NTP
//! timestamp arithmetic, and the decision logic of the four protocol roles
//! (Control-Client, Server, Session-Sender, Session-Reflector) as state
//! machines that take the bytes read and hand back the bytes to write.

pub mod accept_session;
pub mod codes;
pub mod control_client;
pub mod error_estimate;
pub mod request_tw_session;
pub mod server;
pub mod server_greeting;
pub mod server_start;
pub mod session_reflector;
pub mod session_sender;
pub mod set_up_response;
pub mod start_ack;
pub mod start_sessions;
pub mod stop_sessions;
pub mod timestamp;
pub mod twamp_test_unauth;
pub mod twamp_test_unauth_reflected;
pub mod wire;
