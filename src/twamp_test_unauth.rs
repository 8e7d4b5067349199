//! The unauthenticated TWAMP-Test packet a Session-Sender sends (RFC 5357 section 4.1.2).

use crate::codes::WireError;
use crate::error_estimate::{estimate_check, ErrorEstimate};
use crate::timestamp::{
    canonical, lemma_ts_wire, push_timestamp, read_timestamp, ts_at, ts_wire, TimeStamp,
};
use crate::wire::{be32, lemma_be32, push_bytes, push_u32, read_u32, read_vec, u32_at};
use vstd::prelude::*;

verus! {

/// Octets before the padding.
pub const TEST_HEADER_SIZE: usize = 14;

#[derive(Clone, Debug, PartialEq, Eq)]
pub struct TwampTestPacketUnauth {
    pub sequence_number: u32,
    /// When the packet was built.
    pub timestamp: TimeStamp,
    pub error_estimate: ErrorEstimate,
    /// Zero octets; at most `MAX_PADDING_LENGTH` of them.
    pub packet_padding: Vec<u8>,
}

/// The smaller of `a` and `b`.
pub open spec fn min(a: int, b: int) -> int {
    if a < b {
        a
    } else {
        b
    }
}

impl TwampTestPacketUnauth {
    pub const MAX_PADDING_LENGTH: u8 = 27;

    pub open spec fn wf(&self) -> bool {
        self.error_estimate.wf() && self.packet_padding@.len() <= 27
    }

    pub open spec fn wire(&self) -> Seq<u8> {
        be32(self.sequence_number) + ts_wire(self.timestamp) + self.error_estimate.wire()
            + self.packet_padding@
    }

    pub open spec fn check(b: Seq<u8>) -> Result<(), WireError> {
        if b.len() < 14 {
            Err(WireError::Length)
        } else {
            estimate_check(b[12], b[13])
        }
    }

    /// `m` holds the fields `b` encodes; octets past the longest padding are ignored.
    pub open spec fn decodes(b: Seq<u8>, m: &TwampTestPacketUnauth) -> bool {
        &&& m.sequence_number == u32_at(b, 0)
        &&& m.timestamp == ts_at(b, 4)
        &&& ErrorEstimate::decodes(b[12], b[13], m.error_estimate)
        &&& m.packet_padding@ == b.subrange(14, min(b.len() as int, 41))
    }

    /// A packet with the given sequence number and timestamp, and `padding_length`
    /// zero octets of padding, capped at `MAX_PADDING_LENGTH`.
    pub fn with_timestamp(
        sequence_number: u32,
        padding_length: u8,
        is_ntp_synchronized: bool,
        timestamp: TimeStamp,
    ) -> (r: TwampTestPacketUnauth)
        ensures
            r.wf(),
            r.sequence_number == sequence_number,
            r.timestamp == timestamp,
            r.error_estimate == ErrorEstimate::new_spec(is_ntp_synchronized),
            r.packet_padding@ == Seq::new(
                min(padding_length as int, 27) as nat,
                |_i| 0u8,
            ),
    {
        let n: u8 = if padding_length > Self::MAX_PADDING_LENGTH {
            Self::MAX_PADDING_LENGTH
        } else {
            padding_length
        };
        let mut packet_padding: Vec<u8> = Vec::new();
        let mut k: u8 = 0;
        while k < n
            invariant
                k <= n,
                packet_padding@ == Seq::new(k as nat, |_i| 0u8),
            decreases n - k,
        {
            packet_padding.push(0);
            k = k + 1;
            assert(packet_padding@ =~= Seq::new(k as nat, |_i| 0u8));
        }
        TwampTestPacketUnauth {
            sequence_number,
            timestamp,
            error_estimate: ErrorEstimate::new(is_ntp_synchronized),
            packet_padding,
        }
    }

    /// A packet stamped with the current time.
    pub fn new(sequence_number: u32, padding_length: u8, is_ntp_synchronized: bool) -> (r:
        TwampTestPacketUnauth)
        ensures
            r.wf(),
            r.sequence_number == sequence_number,
            canonical(r.timestamp),
            r.error_estimate == ErrorEstimate::new_spec(is_ntp_synchronized),
            r.packet_padding@ == Seq::new(
                min(padding_length as int, 27) as nat,
                |_i| 0u8,
            ),
    {
        Self::with_timestamp(sequence_number, padding_length, is_ntp_synchronized, TimeStamp::now())
    }

    pub fn to_bytes(&self) -> (r: Vec<u8>)
        requires
            self.error_estimate.s < 2,
            self.error_estimate.mbz < 2,
            self.error_estimate.scale < 64,
        ensures
            r@ == self.wire(),
    {
        let mut out: Vec<u8> = Vec::new();
        push_u32(&mut out, self.sequence_number);
        push_timestamp(&mut out, self.timestamp);
        out.push(self.error_estimate.first_octet());
        out.push(self.error_estimate.multiplier);
        push_bytes(&mut out, self.packet_padding.as_slice());
        assert(out@ =~= self.wire());
        out
    }

    /// The packet a datagram holds.
    pub fn from_bytes(b: &[u8]) -> (r: Result<TwampTestPacketUnauth, WireError>)
        ensures
            match r {
                Ok(m) => Self::check(b@) is Ok && Self::decodes(b@, &m),
                Err(e) => Self::check(b@) == Err::<(), WireError>(e),
            },
    {
        if b.len() < 14 {
            return Err(WireError::Length);
        }
        let error_estimate = match ErrorEstimate::from_octets(b[12], b[13]) {
            Ok(e) => e,
            Err(e) => {
                return Err(e);
            },
        };
        let end: usize = if b.len() < 41 {
            b.len()
        } else {
            41
        };
        Ok(
            TwampTestPacketUnauth {
                sequence_number: read_u32(b, 0),
                timestamp: read_timestamp(b, 4),
                error_estimate,
                packet_padding: read_vec(b, 14, end - 14),
            },
        )
    }

    /// A well-formed packet's image is accepted and decodes to the same fields.
    pub proof fn lemma_round_trip(m: &TwampTestPacketUnauth, p: &TwampTestPacketUnauth)
        requires
            m.wf(),
        ensures
            m.wire().len() == TEST_HEADER_SIZE + m.packet_padding@.len(),
            Self::check(m.wire()) is Ok,
            Self::decodes(m.wire(), p) ==> {
                &&& p.sequence_number == m.sequence_number
                &&& p.timestamp == m.timestamp
                &&& p.error_estimate == m.error_estimate
                &&& p.packet_padding@ == m.packet_padding@
            },
    {
        let b = m.wire();
        assert(b.subrange(0, 4) =~= be32(m.sequence_number));
        assert(b.subrange(4, 12) =~= ts_wire(m.timestamp));
        assert(b[12] == m.error_estimate.wire()[0]);
        assert(b[13] == m.error_estimate.wire()[1]);
        assert(b.subrange(14, b.len() as int) =~= m.packet_padding@);
        lemma_be32(m.sequence_number, b, 0);
        lemma_ts_wire(m.timestamp, b, 4);
        ErrorEstimate::lemma_round_trip(m.error_estimate);
    }

    /// An image of a well-formed packet whose error estimate has its Must-Be-Zero
    /// bit set is rejected.
    pub proof fn lemma_mbz_rejected(m: &TwampTestPacketUnauth, v: u8)
        requires
            m.wf(),
            (v / 64) % 2 == 1,
        ensures
            Self::check(m.wire().update(12, v)) == Err::<(), WireError>(WireError::MustBeZero),
    {
    }
}

} // verus!
