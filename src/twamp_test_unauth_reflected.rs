//! The unauthenticated TWAMP-Test packet a Session-Reflector sends back
//! (RFC 5357 section 4.2.1).

use crate::codes::WireError;
use crate::error_estimate::{estimate_check, ErrorEstimate};
use crate::timestamp::{
    canonical, lemma_ts_wire, push_timestamp, read_timestamp, ts_at, ts_wire, TimeStamp,
};
use crate::twamp_test_unauth::{min, TwampTestPacketUnauth};
use crate::wire::{
    be16, be32, lemma_be16, lemma_be32, push_bytes, push_u16, push_u32, read_u16, read_u32,
    read_vec, u16_at, u32_at,
};
use vstd::prelude::*;

verus! {

/// Octets before the padding.
pub const REFLECTED_HEADER_SIZE: usize = 41;

/// TTL reported for every reflected packet, as the socket does not surface the
/// received one.
pub const SENDER_TTL: u8 = 255;

#[derive(Clone, Debug, PartialEq, Eq)]
pub struct TwampTestPacketUnauthReflected {
    /// The reflector's own count: zero for its first reflection, then one more for
    /// each.
    pub sequence_number: u32,
    /// When the reflected packet was sent.
    pub timestamp: TimeStamp,
    pub error_estimate: ErrorEstimate,
    /// Must Be Zero.
    pub mbz_first: u16,
    /// When the sender's packet arrived.
    pub receive_timestamp: TimeStamp,
    /// Copied from the sender's packet.
    pub sender_sequence_number: u32,
    /// Copied from the sender's packet.
    pub sender_timestamp: TimeStamp,
    /// Copied from the sender's packet.
    pub error_estimate_sender: ErrorEstimate,
    /// Must Be Zero.
    pub mbz_second: u16,
    pub sender_ttl: u8,
    pub packet_padding: Vec<u8>,
}

impl TwampTestPacketUnauthReflected {
    pub open spec fn wf(&self) -> bool {
        &&& self.error_estimate.wf()
        &&& self.error_estimate_sender.wf()
        &&& self.mbz_first == 0
        &&& self.mbz_second == 0
        &&& self.packet_padding@.len() <= 27
    }

    pub open spec fn wire(&self) -> Seq<u8> {
        be32(self.sequence_number) + ts_wire(self.timestamp) + self.error_estimate.wire() + be16(
            self.mbz_first,
        ) + ts_wire(self.receive_timestamp) + be32(self.sender_sequence_number) + ts_wire(
            self.sender_timestamp,
        ) + self.error_estimate_sender.wire() + be16(self.mbz_second) + seq![self.sender_ttl]
            + self.packet_padding@
    }

    pub open spec fn check(b: Seq<u8>) -> Result<(), WireError> {
        if b.len() < 41 {
            Err(WireError::Length)
        } else if b[14] != 0 || b[15] != 0 || b[38] != 0 || b[39] != 0 {
            Err(WireError::MustBeZero)
        } else if estimate_check(b[12], b[13]) is Err {
            estimate_check(b[12], b[13])
        } else {
            estimate_check(b[36], b[37])
        }
    }

    /// `m` holds the fields `b` encodes; octets past the longest padding are ignored.
    pub open spec fn decodes(b: Seq<u8>, m: &TwampTestPacketUnauthReflected) -> bool {
        &&& m.sequence_number == u32_at(b, 0)
        &&& m.timestamp == ts_at(b, 4)
        &&& ErrorEstimate::decodes(b[12], b[13], m.error_estimate)
        &&& m.mbz_first == u16_at(b, 14)
        &&& m.receive_timestamp == ts_at(b, 16)
        &&& m.sender_sequence_number == u32_at(b, 24)
        &&& m.sender_timestamp == ts_at(b, 28)
        &&& ErrorEstimate::decodes(b[36], b[37], m.error_estimate_sender)
        &&& m.mbz_second == u16_at(b, 38)
        &&& m.sender_ttl == b[40]
        &&& m.packet_padding@ == b.subrange(41, min(b.len() as int, 68))
    }

    /// The reflection of `pkt`, numbered `seq`, received at `recv_ts` and sent at
    /// `timestamp`: it copies the sender's number, timestamp and estimate.
    pub open spec fn reflects(
        &self,
        seq: u32,
        pkt: &TwampTestPacketUnauth,
        recv_ts: TimeStamp,
        timestamp: TimeStamp,
    ) -> bool {
        &&& self.sequence_number == seq
        &&& self.timestamp == timestamp
        &&& self.error_estimate == ErrorEstimate::new_spec(true)
        &&& self.mbz_first == 0
        &&& self.receive_timestamp == recv_ts
        &&& self.sender_sequence_number == pkt.sequence_number
        &&& self.sender_timestamp == pkt.timestamp
        &&& self.error_estimate_sender == pkt.error_estimate
        &&& self.mbz_second == 0
        &&& self.sender_ttl == SENDER_TTL
        &&& self.packet_padding@.len() == 0
    }

    /// The reflection of `pkt` sent at `timestamp`.
    pub fn reflect(
        seq: u32,
        pkt: &TwampTestPacketUnauth,
        recv_ts: TimeStamp,
        timestamp: TimeStamp,
    ) -> (r: TwampTestPacketUnauthReflected)
        ensures
            r.reflects(seq, pkt, recv_ts, timestamp),
    {
        TwampTestPacketUnauthReflected {
            sequence_number: seq,
            timestamp,
            error_estimate: ErrorEstimate::new(true),
            mbz_first: 0,
            receive_timestamp: recv_ts,
            sender_sequence_number: pkt.sequence_number,
            sender_timestamp: pkt.timestamp,
            error_estimate_sender: pkt.error_estimate,
            mbz_second: 0,
            sender_ttl: SENDER_TTL,
            packet_padding: Vec::new(),
        }
    }

    /// The reflection of `pkt`, stamped with the current time.
    pub fn new(seq: u32, twamp_test_pkt: TwampTestPacketUnauth, recv_ts: TimeStamp) -> (r:
        TwampTestPacketUnauthReflected)
        ensures
            r.reflects(seq, &twamp_test_pkt, recv_ts, r.timestamp),
            canonical(r.timestamp),
    {
        Self::reflect(seq, &twamp_test_pkt, recv_ts, TimeStamp::now())
    }

    pub fn to_bytes(&self) -> (r: Vec<u8>)
        requires
            self.error_estimate.s < 2,
            self.error_estimate.mbz < 2,
            self.error_estimate.scale < 64,
            self.error_estimate_sender.s < 2,
            self.error_estimate_sender.mbz < 2,
            self.error_estimate_sender.scale < 64,
        ensures
            r@ == self.wire(),
    {
        let mut out: Vec<u8> = Vec::new();
        push_u32(&mut out, self.sequence_number);
        push_timestamp(&mut out, self.timestamp);
        out.push(self.error_estimate.first_octet());
        out.push(self.error_estimate.multiplier);
        push_u16(&mut out, self.mbz_first);
        push_timestamp(&mut out, self.receive_timestamp);
        push_u32(&mut out, self.sender_sequence_number);
        push_timestamp(&mut out, self.sender_timestamp);
        out.push(self.error_estimate_sender.first_octet());
        out.push(self.error_estimate_sender.multiplier);
        push_u16(&mut out, self.mbz_second);
        out.push(self.sender_ttl);
        push_bytes(&mut out, self.packet_padding.as_slice());
        assert(out@ =~= self.wire());
        out
    }

    /// The reflected packet a datagram holds.
    pub fn from_bytes(b: &[u8]) -> (r: Result<TwampTestPacketUnauthReflected, WireError>)
        ensures
            match r {
                Ok(m) => Self::check(b@) is Ok && Self::decodes(b@, &m),
                Err(e) => Self::check(b@) == Err::<(), WireError>(e),
            },
    {
        if b.len() < 41 {
            return Err(WireError::Length);
        }
        if b[14] != 0 || b[15] != 0 || b[38] != 0 || b[39] != 0 {
            return Err(WireError::MustBeZero);
        }
        let error_estimate = match ErrorEstimate::from_octets(b[12], b[13]) {
            Ok(e) => e,
            Err(e) => {
                return Err(e);
            },
        };
        let error_estimate_sender = match ErrorEstimate::from_octets(b[36], b[37]) {
            Ok(e) => e,
            Err(e) => {
                return Err(e);
            },
        };
        let end: usize = if b.len() < 68 {
            b.len()
        } else {
            68
        };
        Ok(
            TwampTestPacketUnauthReflected {
                sequence_number: read_u32(b, 0),
                timestamp: read_timestamp(b, 4),
                error_estimate,
                mbz_first: read_u16(b, 14),
                receive_timestamp: read_timestamp(b, 16),
                sender_sequence_number: read_u32(b, 24),
                sender_timestamp: read_timestamp(b, 28),
                error_estimate_sender,
                mbz_second: read_u16(b, 38),
                sender_ttl: b[40],
                packet_padding: read_vec(b, 41, end - 41),
            },
        )
    }

    /// A well-formed reflected packet's image is accepted and decodes to the same
    /// fields.
    #[verifier::rlimit(30)]
    pub proof fn lemma_round_trip(m: &TwampTestPacketUnauthReflected, p: &TwampTestPacketUnauthReflected)
        requires
            m.wf(),
        ensures
            m.wire().len() == REFLECTED_HEADER_SIZE + m.packet_padding@.len(),
            Self::check(m.wire()) is Ok,
            Self::decodes(m.wire(), p) ==> {
                &&& p.sequence_number == m.sequence_number
                &&& p.timestamp == m.timestamp
                &&& p.error_estimate == m.error_estimate
                &&& p.mbz_first == m.mbz_first
                &&& p.receive_timestamp == m.receive_timestamp
                &&& p.sender_sequence_number == m.sender_sequence_number
                &&& p.sender_timestamp == m.sender_timestamp
                &&& p.error_estimate_sender == m.error_estimate_sender
                &&& p.mbz_second == m.mbz_second
                &&& p.sender_ttl == m.sender_ttl
                &&& p.packet_padding@ == m.packet_padding@
            },
    {
        let b = m.wire();
        assert(b.subrange(0, 4) =~= be32(m.sequence_number));
        assert(b.subrange(4, 12) =~= ts_wire(m.timestamp));
        assert(b[12] == m.error_estimate.wire()[0]);
        assert(b[13] == m.error_estimate.wire()[1]);
        assert(b.subrange(14, 16) =~= be16(m.mbz_first));
        assert(b.subrange(16, 24) =~= ts_wire(m.receive_timestamp));
        assert(b.subrange(24, 28) =~= be32(m.sender_sequence_number));
        assert(b.subrange(28, 36) =~= ts_wire(m.sender_timestamp));
        assert(b[36] == m.error_estimate_sender.wire()[0]);
        assert(b[37] == m.error_estimate_sender.wire()[1]);
        assert(b.subrange(38, 40) =~= be16(m.mbz_second));
        assert(b[40] == m.sender_ttl);
        assert(b.subrange(41, b.len() as int) =~= m.packet_padding@);
        lemma_be32(m.sequence_number, b, 0);
        lemma_ts_wire(m.timestamp, b, 4);
        lemma_be16(m.mbz_first, b, 14);
        lemma_ts_wire(m.receive_timestamp, b, 16);
        lemma_be32(m.sender_sequence_number, b, 24);
        lemma_ts_wire(m.sender_timestamp, b, 28);
        lemma_be16(m.mbz_second, b, 38);
        ErrorEstimate::lemma_round_trip(m.error_estimate);
        ErrorEstimate::lemma_round_trip(m.error_estimate_sender);
    }

    /// The reflector's number and the echoed sender number sit at octets 0 and 24.
    pub proof fn lemma_numbers(q: &TwampTestPacketUnauthReflected)
        ensures
            q.wire().len() >= REFLECTED_HEADER_SIZE,
            u32_at(q.wire(), 0) == q.sequence_number,
            u32_at(q.wire(), 24) == q.sender_sequence_number,
    {
        let b = q.wire();
        assert(b.subrange(0, 4) =~= be32(q.sequence_number));
        assert(b.subrange(24, 28) =~= be32(q.sender_sequence_number));
        lemma_be32(q.sequence_number, b, 0);
        lemma_be32(q.sender_sequence_number, b, 24);
    }

    /// An image of a well-formed reflected packet with a non-zero octet written into
    /// a Must-Be-Zero field, or with the Must-Be-Zero bit of either error estimate
    /// set, is rejected.
    pub proof fn lemma_mbz_rejected(m: &TwampTestPacketUnauthReflected, k: int, v: u8)
        requires
            m.wf(),
            ((14 <= k < 16 || 38 <= k < 40) && v != 0) || ((k == 12 || k == 36) && (v / 64) % 2
                == 1),
        ensures
            Self::check(m.wire().update(k, v)) == Err::<(), WireError>(WireError::MustBeZero),
    {
        ErrorEstimate::lemma_round_trip(m.error_estimate);
        assert(m.wire()[12] == m.error_estimate.wire()[0]);
        assert(m.wire()[13] == m.error_estimate.wire()[1]);
        assert(m.wire()[14] == 0 && m.wire()[15] == 0);
        assert(m.wire()[38] == 0 && m.wire()[39] == 0);
    }
}

} // verus!
