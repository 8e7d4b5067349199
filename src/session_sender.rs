//! Session-Sender: the Controller's side of TWAMP-Test. The socket work stays with
//! the caller; this numbers and stamps the outgoing packets and keeps the log of
//! reflected packets with their arrival times.

use crate::codes::WireError;
use crate::error_estimate::ErrorEstimate;
use crate::timestamp::{ts_sub, ts_wire, TimeStamp};
use crate::wire::be32;
use crate::twamp_test_unauth::TwampTestPacketUnauth;
use crate::twamp_test_unauth_reflected::TwampTestPacketUnauthReflected;
use vstd::prelude::*;

verus! {

#[derive(Clone, Copy, Debug, PartialEq, Eq, Structural)]
pub enum SessionSenderError {
    /// Connecting to the Session-Reflector at this address and port failed.
    SessionReflectorConnectError(u32, u16),
    /// Reading a datagram failed after this many packets came back.
    SessionReflectorReadError(u32),
    /// Sending a datagram failed after this many packets were sent.
    SessionReflectorWriteError(u32),
    /// The socket is not bound.
    NotBound,
    /// The socket is not connected to the Session-Reflector.
    SessionReflectorNotConnected,
    /// A received datagram is not a reflected test packet.
    WireConversionError(WireError),
}

#[derive(Debug)]
pub struct SessionSender {
    /// The Responder's address.
    pub responder_address: u32,
    /// How many test packets the session sends.
    pub number_of_packets: u32,
    /// The Session-Reflector's port, once Accept-Session has named it.
    pub reflector_port: Option<u16>,
    /// Whether Start-Ack has released the sender.
    pub started: bool,
    /// Test packets sent so far; the next one carries this number.
    pub sent: u32,
    /// Reflected packets in arrival order, each with its arrival time.
    pub reflected: Vec<(TwampTestPacketUnauthReflected, TimeStamp)>,
}

impl SessionSender {
    /// A sender of `number_of_packets` packets to the Responder at
    /// `responder_address`, waiting for the reflector's port.
    pub fn new(responder_address: u32, number_of_packets: u32) -> (r: SessionSender)
        ensures
            r.responder_address == responder_address,
            r.number_of_packets == number_of_packets,
            r.reflector_port is None,
            !r.started,
            r.sent == 0,
            r.reflected@.len() == 0,
    {
        SessionSender {
            responder_address,
            number_of_packets,
            reflector_port: None,
            started: false,
            sent: 0,
            reflected: Vec::new(),
        }
    }

    /// Takes the port of Accept-Session and returns where to connect the socket.
    pub fn reflector_port_received(&mut self, port: u16) -> (r: (u32, u16))
        ensures
            r == (old(self).responder_address, port),
            final(self).reflector_port == Some(port),
            final(self).responder_address == old(self).responder_address,
            final(self).number_of_packets == old(self).number_of_packets,
            final(self).started == old(self).started,
            final(self).sent == old(self).sent,
            final(self).reflected@ == old(self).reflected@,
    {
        self.reflector_port = Some(port);
        (self.responder_address, port)
    }

    /// Start-Ack has come: packets may go out.
    pub fn start(&mut self)
        ensures
            final(self).started,
            final(self).reflector_port == old(self).reflector_port,
            final(self).responder_address == old(self).responder_address,
            final(self).number_of_packets == old(self).number_of_packets,
            final(self).sent == old(self).sent,
            final(self).reflected@ == old(self).reflected@,
    {
        self.started = true;
    }

    /// The next test packet, stamped `timestamp`, without padding; nothing before
    /// the reflector's port and the start are known, or once all packets are out.
    pub fn send_it(&mut self, timestamp: TimeStamp) -> (r: Option<Vec<u8>>)
        ensures
            final(self).started == old(self).started,
            final(self).reflector_port == old(self).reflector_port,
            final(self).responder_address == old(self).responder_address,
            final(self).number_of_packets == old(self).number_of_packets,
            final(self).reflected@ == old(self).reflected@,
            (old(self).reflector_port is Some && old(self).started && old(self).sent < old(
                self,
            ).number_of_packets) <==> r is Some,
            match r {
                Some(bytes) => final(self).sent == old(self).sent + 1 && bytes@ == test_packet_bytes(
                    old(self).sent,
                    timestamp,
                ),
                None => final(self).sent == old(self).sent,
            },
    {
        if self.reflector_port.is_none() || !self.started || self.sent >= self.number_of_packets {
            return None;
        }
        let pkt = TwampTestPacketUnauth::with_timestamp(self.sent, 0, true, timestamp);
        let bytes = pkt.to_bytes();
        assert(bytes@ =~= test_packet_bytes(self.sent, timestamp));
        self.sent = self.sent + 1;
        Some(bytes)
    }

    /// Logs a datagram that came back at `arrival`. Returns whether every packet
    /// sent has now come back.
    pub fn recv(&mut self, datagram: &[u8], arrival: TimeStamp) -> (r: Result<
        bool,
        SessionSenderError,
    >)
        ensures
            final(self).started == old(self).started,
            final(self).reflector_port == old(self).reflector_port,
            final(self).responder_address == old(self).responder_address,
            final(self).number_of_packets == old(self).number_of_packets,
            final(self).sent == old(self).sent,
            match r {
                Ok(done) => {
                    &&& TwampTestPacketUnauthReflected::check(datagram@) is Ok
                    &&& final(self).reflected@.len() == old(self).reflected@.len() + 1
                    &&& final(self).reflected@.drop_last() == old(self).reflected@
                    &&& TwampTestPacketUnauthReflected::decodes(
                        datagram@,
                        &final(self).reflected@.last().0,
                    )
                    &&& final(self).reflected@.last().1 == arrival
                    &&& done == (final(self).reflected@.len() >= old(self).number_of_packets)
                },
                Err(e) => {
                    &&& e is WireConversionError
                    &&& TwampTestPacketUnauthReflected::check(datagram@) == Err::<(), WireError>(
                        e->WireConversionError_0,
                    )
                    &&& final(self).reflected@ == old(self).reflected@
                },
            },
    {
        match TwampTestPacketUnauthReflected::from_bytes(datagram) {
            Err(e) => Err(SessionSenderError::WireConversionError(e)),
            Ok(pkt) => {
                let ghost before = self.reflected@;
                self.reflected.push((pkt, arrival));
                assert(self.reflected@.drop_last() =~= before);
                Ok(self.reflected.len() as u64 >= self.number_of_packets as u64)
            },
        }
    }

    /// Whether the test is over and Stop-Sessions may go: every packet is out, and
    /// either every one has come back or the grace period after sending expired.
    pub fn ready_to_stop(&self, grace_expired: bool) -> (r: bool)
        ensures
            r == (self.sent >= self.number_of_packets && (self.reflected@.len()
                >= self.number_of_packets || grace_expired)),
    {
        self.sent >= self.number_of_packets && (self.reflected.len() as u64
            >= self.number_of_packets as u64 || grace_expired)
    }

    /// Whether every packet has come back.
    pub fn is_complete(&self) -> (r: bool)
        ensures
            r == (self.reflected@.len() >= self.number_of_packets),
    {
        self.reflected.len() as u64 >= self.number_of_packets as u64
    }
}

/// The image of an unpadded test packet numbered `seq`, stamped `timestamp`, from a
/// synchronized clock.
pub open spec fn test_packet_bytes(seq: u32, timestamp: TimeStamp) -> Seq<u8> {
    be32(seq) + ts_wire(timestamp) + ErrorEstimate::new_spec(true).wire()
}

/// Percentage of `sent` packets that did not come back, truncated; zero when
/// nothing was sent.
pub open spec fn loss_percent(sent: u32, received: u32) -> int {
    if sent == 0 || received >= sent {
        0
    } else {
        (sent - received) as int * 100 / (sent as int)
    }
}

/// Percentage of packets lost, truncated towards zero.
pub fn packet_loss_percent(sent: u32, received: u32) -> (r: u32)
    ensures
        r == loss_percent(sent, received),
        r <= 100,
{
    if sent == 0 || received >= sent {
        return 0;
    }
    let lost = (sent - received) as u64;
    let r = lost * 100 / (sent as u64);
    let ghost s = sent as int;
    let ghost l = lost as int;
    assert(l * 100 / s <= 100) by (nonlinear_arith)
        requires
            l <= s,
            s > 0,
    {
        assert(l * 100 <= s * 100);
        vstd::arithmetic::div_mod::lemma_div_is_ordered(l * 100, s * 100, s);
        vstd::arithmetic::div_mod::lemma_div_multiples_vanish(100, s);
    }
    r as u32
}

/// Round-trip time of a reflected packet that arrived at `arrival`: the time
/// between sending and arrival, less the time the packet spent in the reflector.
pub open spec fn rtt(pkt: TwampTestPacketUnauthReflected, arrival: TimeStamp) -> TimeStamp {
    ts_sub(ts_sub(arrival, pkt.sender_timestamp), ts_sub(pkt.timestamp, pkt.receive_timestamp))
}

pub fn round_trip_time(pkt: &TwampTestPacketUnauthReflected, arrival: TimeStamp) -> (r: TimeStamp)
    ensures
        r == rtt(*pkt, arrival),
{
    (arrival - pkt.sender_timestamp) - (pkt.timestamp - pkt.receive_timestamp)
}

} // verus!
