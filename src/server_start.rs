//! Server-Start: the Server's answer to Set-Up-Response (RFC 4656 section 3.1).

use crate::codes::{accept_code, accept_of, Accept, WireError};
use crate::timestamp::{lemma_ts_wire, push_timestamp, read_timestamp, ts_at, ts_wire, TimeStamp};
use crate::wire::{all_zero, push_bytes, read_array, zero_at};
use vstd::prelude::*;

verus! {

#[derive(Clone, Copy, Debug, PartialEq, Eq)]
pub struct ServerStart {
    /// Must Be Zero.
    pub mbz_start: [u8; 15],
    /// The Server's willingness to continue.
    pub accept: Accept,
    /// Unused in unauthenticated mode.
    pub server_iv: [u8; 16],
    /// When the Server started.
    pub start_time: TimeStamp,
    /// Must Be Zero.
    pub mbz_end: [u8; 8],
}

impl ServerStart {
    pub const SERIALIZED_SIZE: usize = 48;

    pub open spec fn wf(self) -> bool {
        all_zero(self.mbz_start@) && all_zero(self.mbz_end@)
    }

    pub open spec fn wire(self) -> Seq<u8> {
        self.mbz_start@ + seq![accept_code(self.accept)] + self.server_iv@ + ts_wire(self.start_time)
            + self.mbz_end@
    }

    pub open spec fn check(b: Seq<u8>) -> Result<(), WireError> {
        if b.len() != 48 {
            Err(WireError::Length)
        } else if !all_zero(b.subrange(0, 15)) || !all_zero(b.subrange(40, 48)) {
            Err(WireError::MustBeZero)
        } else if accept_of(b[15]) is None {
            Err(WireError::Accept)
        } else {
            Ok(())
        }
    }

    pub open spec fn decodes(b: Seq<u8>, m: ServerStart) -> bool {
        &&& m.mbz_start@ == b.subrange(0, 15)
        &&& accept_of(b[15]) == Some(m.accept)
        &&& m.server_iv@ == b.subrange(16, 32)
        &&& m.start_time == ts_at(b, 32)
        &&& m.mbz_end@ == b.subrange(40, 48)
    }

    /// A Server-Start with the given answer and start time; zero IV and MBZ fields.
    pub fn new(accept: Accept, start_time: TimeStamp) -> (r: ServerStart)
        ensures
            r.wf(),
            r.accept == accept,
            r.start_time == start_time,
            all_zero(r.server_iv@),
    {
        ServerStart { mbz_start: [0u8; 15], accept, server_iv: [0u8; 16], start_time, mbz_end: [0u8; 8] }
    }

    pub fn accept(&self) -> (r: &Accept)
        ensures
            *r == self.accept,
    {
        &self.accept
    }

    pub fn start_time(&self) -> (r: &TimeStamp)
        ensures
            *r == self.start_time,
    {
        &self.start_time
    }

    pub fn to_bytes(&self) -> (r: Vec<u8>)
        ensures
            r@ == self.wire(),
    {
        let mut out: Vec<u8> = Vec::new();
        push_bytes(&mut out, self.mbz_start.as_slice());
        out.push(self.accept.code());
        push_bytes(&mut out, self.server_iv.as_slice());
        push_timestamp(&mut out, self.start_time);
        push_bytes(&mut out, self.mbz_end.as_slice());
        assert(out@ =~= self.wire());
        out
    }

    pub fn from_bytes(b: &[u8]) -> (r: Result<ServerStart, WireError>)
        ensures
            match r {
                Ok(m) => Self::check(b@) is Ok && Self::decodes(b@, m),
                Err(e) => Self::check(b@) == Err::<(), WireError>(e),
            },
    {
        if b.len() != 48 {
            return Err(WireError::Length);
        }
        if !zero_at(b, 0, 15) || !zero_at(b, 40, 8) {
            return Err(WireError::MustBeZero);
        }
        let accept = match Accept::from_code(b[15]) {
            Some(a) => a,
            None => {
                return Err(WireError::Accept);
            },
        };
        Ok(
            ServerStart {
                mbz_start: read_array(b, 0),
                accept,
                server_iv: read_array(b, 16),
                start_time: read_timestamp(b, 32),
                mbz_end: read_array(b, 40),
            },
        )
    }

    /// A well-formed Server-Start serializes to its declared size, and its image is
    /// accepted and decodes to the message itself.
    pub proof fn lemma_round_trip(m: ServerStart, p: ServerStart)
        requires
            m.wf(),
        ensures
            m.wire().len() == Self::SERIALIZED_SIZE,
            Self::check(m.wire()) is Ok,
            Self::decodes(m.wire(), p) ==> p == m,
    {
        let b = m.wire();
        assert(b.subrange(0, 15) =~= m.mbz_start@);
        assert(b[15] == accept_code(m.accept));
        assert(b.subrange(16, 32) =~= m.server_iv@);
        assert(b.subrange(32, 40) =~= ts_wire(m.start_time));
        assert(b.subrange(40, 48) =~= m.mbz_end@);
        lemma_ts_wire(m.start_time, b, 32);
        if Self::decodes(b, p) {
            assert(p.mbz_start =~= m.mbz_start);
            assert(p.server_iv =~= m.server_iv);
            assert(p.mbz_end =~= m.mbz_end);
        }
    }

    /// An image of a well-formed Server-Start with a non-zero octet written into a
    /// Must-Be-Zero field is rejected.
    pub proof fn lemma_mbz_rejected(m: ServerStart, k: int, v: u8)
        requires
            m.wf(),
            0 <= k < 15 || 40 <= k < 48,
            v != 0,
        ensures
            Self::check(m.wire().update(k, v)) == Err::<(), WireError>(WireError::MustBeZero),
    {
        let b = m.wire().update(k, v);
        if k < 15 {
            assert(b.subrange(0, 15)[k] == v);
        } else {
            assert(b.subrange(40, 48)[k - 40] == v);
        }
    }
}

} // verus!
