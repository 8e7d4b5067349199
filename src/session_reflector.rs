//! Session-Reflector: the Responder's side of TWAMP-Test. The socket work stays
//! with the caller; this holds the bind decision and turns each received datagram
//! into the datagram to send back.

use crate::codes::WireError;
use crate::request_tw_session::RequestTwSession;
use crate::timestamp::{canonical, TimeStamp};
use crate::twamp_test_unauth::TwampTestPacketUnauth;
use crate::twamp_test_unauth_reflected::TwampTestPacketUnauthReflected;
use crate::wire::u32_at;
use vstd::prelude::*;

verus! {

#[derive(Clone, Copy, Debug, PartialEq, Eq, Structural)]
pub enum SessionReflectorError {
    /// Connecting to the Session-Sender at this address and port failed.
    SessionSenderConnectError(u32, u16),
    /// Reading a datagram failed after this many packets were reflected.
    SessionSenderReadError(u32),
    /// Sending a datagram failed after this many packets were reflected.
    SessionSenderWriteError(u32),
    /// No datagram came for REFWAIT seconds (first field) after this many packets
    /// were reflected (second field).
    RefwaitTimeout(u16, u32),
    /// The socket is not bound.
    NotBound,
    /// The socket is not connected to the Session-Sender.
    SessionSenderNotConnected,
    /// A received datagram is not a test packet.
    WireConversionError(WireError),
}

#[derive(Debug)]
pub struct SessionReflector {
    /// Address to bind, from the request.
    pub local_address: u32,
    /// Port to bind, from the request.
    pub requested_port: u16,
    /// The Session-Sender's address, from the request.
    pub peer_address: u32,
    /// The Session-Sender's port, from the request.
    pub peer_port: u16,
    /// Seconds to wait for each datagram.
    pub refwait: u16,
    /// The port actually bound, once bound.
    pub bound_port: Option<u16>,
    /// Packets reflected so far; the next reflection carries this number.
    pub pkts_processed_number: u32,
}

/// The number after `n`, wrapping at 2^32.
pub open spec fn next_number(n: u32) -> u32 {
    if n == u32::MAX {
        0
    } else {
        (n + 1) as u32
    }
}

/// `bytes` is the reply numbered `n` to the test packet `datagram` holds, received
/// at `recv_ts` and sent at `timestamp`: the number sits at octet 0 and the sender's
/// number is echoed at octet 24.
pub open spec fn replies(
    n: u32,
    datagram: Seq<u8>,
    recv_ts: TimeStamp,
    timestamp: TimeStamp,
    bytes: Seq<u8>,
) -> bool {
    &&& u32_at(bytes, 0) == n
    &&& u32_at(bytes, 24) == u32_at(datagram, 0)
    &&& exists|p: TwampTestPacketUnauth, q: TwampTestPacketUnauthReflected|
        #[trigger] TwampTestPacketUnauth::decodes(datagram, &p) && #[trigger] q.reflects(
            n,
            &p,
            recv_ts,
            timestamp,
        ) && bytes == q.wire()
}

/// A datagram that is not a test packet is refused with the parse error, and the
/// count stays.
pub open spec fn refused(
    before: SessionReflector,
    after: SessionReflector,
    datagram: Seq<u8>,
    e: SessionReflectorError,
) -> bool {
    &&& e is WireConversionError
    &&& TwampTestPacketUnauth::check(datagram) == Err::<(), WireError>(e->WireConversionError_0)
    &&& after.pkts_processed_number == before.pkts_processed_number
}

impl SessionReflector {
    /// A reflector for `request` that waits at most `refwait` seconds per datagram.
    pub fn from_request_tw_session(request: &RequestTwSession, refwait: u16) -> (r: SessionReflector)
        ensures
            r.local_address == request.receiver_address,
            r.requested_port == request.receiver_port,
            r.peer_address == request.sender_address,
            r.peer_port == request.sender_port,
            r.refwait == refwait,
            r.bound_port is None,
            r.pkts_processed_number == 0,
    {
        SessionReflector {
            local_address: request.receiver_address,
            requested_port: request.receiver_port,
            peer_address: request.sender_address,
            peer_port: request.sender_port,
            refwait,
            bound_port: None,
            pkts_processed_number: 0,
        }
    }

    /// Where to bind: the requested port, or any port the system picks (port zero)
    /// when the requested one is taken.
    pub fn bind_target(&self, requested_port_unavailable: bool) -> (r: (u32, u16))
        ensures
            r.0 == self.local_address,
            r.1 == (if requested_port_unavailable {
                0
            } else {
                self.requested_port
            }),
    {
        if requested_port_unavailable {
            (self.local_address, 0)
        } else {
            (self.local_address, self.requested_port)
        }
    }

    /// Where to connect: the Session-Sender of the request.
    pub fn connect_target(&self) -> (r: (u32, u16))
        ensures
            r == (self.peer_address, self.peer_port),
    {
        (self.peer_address, self.peer_port)
    }

    /// Records the port the socket was actually bound to, and returns it for the
    /// Accept-Session.
    pub fn bound(&mut self, port: u16) -> (r: u16)
        ensures
            r == port,
            final(self).bound_port == Some(port),
            final(self).pkts_processed_number == old(self).pkts_processed_number,
            final(self).refwait == old(self).refwait,
    {
        self.bound_port = Some(port);
        port
    }

    /// Reflects one datagram that arrived at `recv_ts`, stamping the reply with
    /// `timestamp`. The reply carries the reflector's own number, then the count
    /// moves on; a datagram that is not a test packet is refused and not counted.
    pub fn do_reflect_at(&mut self, datagram: &[u8], recv_ts: TimeStamp, timestamp: TimeStamp) -> (r:
        Result<Vec<u8>, SessionReflectorError>)
        ensures
            final(self).refwait == old(self).refwait,
            final(self).bound_port == old(self).bound_port,
            match r {
                Ok(bytes) => {
                    &&& TwampTestPacketUnauth::check(datagram@) is Ok
                    &&& final(self).pkts_processed_number == next_number(
                        old(self).pkts_processed_number,
                    )
                    &&& replies(old(self).pkts_processed_number, datagram@, recv_ts, timestamp, bytes@)
                },
                Err(e) => refused(*old(self), *final(self), datagram@, e),
            },
    {
        let pkt = match TwampTestPacketUnauth::from_bytes(datagram) {
            Ok(p) => p,
            Err(e) => {
                return Err(SessionReflectorError::WireConversionError(e));
            },
        };
        Ok(self.reflect_packet(&pkt, datagram, recv_ts, timestamp))
    }

    /// Reflects one datagram that arrived at `recv_ts`, stamping the reply with the
    /// clock read after the datagram was parsed, just before the reply is built.
    /// Returns the reply and that stamp.
    pub fn do_reflect(&mut self, datagram: &[u8], recv_ts: TimeStamp) -> (r: Result<
        (Vec<u8>, TimeStamp),
        SessionReflectorError,
    >)
        ensures
            final(self).refwait == old(self).refwait,
            final(self).bound_port == old(self).bound_port,
            match r {
                Ok((bytes, timestamp)) => {
                    &&& TwampTestPacketUnauth::check(datagram@) is Ok
                    &&& final(self).pkts_processed_number == next_number(
                        old(self).pkts_processed_number,
                    )
                    &&& canonical(timestamp)
                    &&& replies(old(self).pkts_processed_number, datagram@, recv_ts, timestamp, bytes@)
                },
                Err(e) => refused(*old(self), *final(self), datagram@, e),
            },
    {
        let pkt = match TwampTestPacketUnauth::from_bytes(datagram) {
            Ok(p) => p,
            Err(e) => {
                return Err(SessionReflectorError::WireConversionError(e));
            },
        };
        let timestamp = TimeStamp::now();
        let bytes = self.reflect_packet(&pkt, datagram, recv_ts, timestamp);
        Ok((bytes, timestamp))
    }

    /// The reply to `pkt`, parsed from `datagram`, numbered with the count, which
    /// then moves on.
    fn reflect_packet(
        &mut self,
        pkt: &TwampTestPacketUnauth,
        datagram: &[u8],
        recv_ts: TimeStamp,
        timestamp: TimeStamp,
    ) -> (bytes: Vec<u8>)
        requires
            TwampTestPacketUnauth::decodes(datagram@, pkt),
        ensures
            final(self).refwait == old(self).refwait,
            final(self).bound_port == old(self).bound_port,
            final(self).pkts_processed_number == next_number(old(self).pkts_processed_number),
            replies(old(self).pkts_processed_number, datagram@, recv_ts, timestamp, bytes@),
    {
        let seq = self.pkts_processed_number;
        let reflected = TwampTestPacketUnauthReflected::reflect(seq, pkt, recv_ts, timestamp);
        let bytes = reflected.to_bytes();
        proof {
            TwampTestPacketUnauthReflected::lemma_numbers(&reflected);
        }
        self.pkts_processed_number = if seq == u32::MAX {
            0
        } else {
            seq + 1
        };
        bytes
    }

    /// The error that ends the session when no datagram came within REFWAIT.
    pub fn refwait_expired(&self) -> (r: SessionReflectorError)
        ensures
            r == SessionReflectorError::RefwaitTimeout(self.refwait, self.pkts_processed_number),
    {
        SessionReflectorError::RefwaitTimeout(self.refwait, self.pkts_processed_number)
    }
}

} // verus!
