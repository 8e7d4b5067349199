//! Start-Ack: the Server's answer to Start-Sessions (RFC 5357 section 3.7).

use crate::codes::{accept_code, accept_of, Accept, WireError};
use crate::wire::{all_zero, push_bytes, read_array, zero_at};
use vstd::prelude::*;

verus! {

#[derive(Clone, Copy, Debug, PartialEq, Eq)]
pub struct StartAck {
    /// The Server's willingness to start.
    pub accept: Accept,
    /// Must Be Zero.
    pub mbz: [u8; 15],
    /// Zero in unauthenticated mode.
    pub hmac: [u8; 16],
}

impl StartAck {
    pub const SERIALIZED_SIZE: usize = 32;

    pub open spec fn wf(self) -> bool {
        all_zero(self.mbz@) && all_zero(self.hmac@)
    }

    pub open spec fn wire(self) -> Seq<u8> {
        seq![accept_code(self.accept)] + self.mbz@ + self.hmac@
    }

    pub open spec fn check(b: Seq<u8>) -> Result<(), WireError> {
        if b.len() != 32 {
            Err(WireError::Length)
        } else if !all_zero(b.subrange(1, 16)) || !all_zero(b.subrange(16, 32)) {
            Err(WireError::MustBeZero)
        } else if accept_of(b[0]) is None {
            Err(WireError::Accept)
        } else {
            Ok(())
        }
    }

    pub open spec fn decodes(b: Seq<u8>, m: StartAck) -> bool {
        &&& accept_of(b[0]) == Some(m.accept)
        &&& m.mbz@ == b.subrange(1, 16)
        &&& m.hmac@ == b.subrange(16, 32)
    }

    pub fn new(accept: Accept) -> (r: StartAck)
        ensures
            r.wf(),
            r.accept == accept,
            all_zero(r.hmac@),
    {
        StartAck { accept, mbz: [0u8; 15], hmac: [0u8; 16] }
    }

    pub fn to_bytes(&self) -> (r: Vec<u8>)
        ensures
            r@ == self.wire(),
    {
        let mut out: Vec<u8> = Vec::new();
        out.push(self.accept.code());
        push_bytes(&mut out, self.mbz.as_slice());
        push_bytes(&mut out, self.hmac.as_slice());
        assert(out@ =~= self.wire());
        out
    }

    pub fn from_bytes(b: &[u8]) -> (r: Result<StartAck, WireError>)
        ensures
            match r {
                Ok(m) => Self::check(b@) is Ok && Self::decodes(b@, m),
                Err(e) => Self::check(b@) == Err::<(), WireError>(e),
            },
    {
        if b.len() != 32 {
            return Err(WireError::Length);
        }
        if !zero_at(b, 1, 15) || !zero_at(b, 16, 16) {
            return Err(WireError::MustBeZero);
        }
        let accept = match Accept::from_code(b[0]) {
            Some(a) => a,
            None => {
                return Err(WireError::Accept);
            },
        };
        Ok(StartAck { accept, mbz: read_array(b, 1), hmac: read_array(b, 16) })
    }

    /// A well-formed Start-Ack serializes to its declared size, and its image is
    /// accepted and decodes to the message itself.
    pub proof fn lemma_round_trip(m: StartAck, p: StartAck)
        requires
            m.wf(),
        ensures
            m.wire().len() == Self::SERIALIZED_SIZE,
            Self::check(m.wire()) is Ok,
            Self::decodes(m.wire(), p) ==> p == m,
    {
        let b = m.wire();
        assert(b[0] == accept_code(m.accept));
        assert(b.subrange(1, 16) =~= m.mbz@);
        assert(b.subrange(16, 32) =~= m.hmac@);
        if Self::decodes(b, p) {
            assert(p.mbz =~= m.mbz);
            assert(p.hmac =~= m.hmac);
        }
    }

    /// An image of a well-formed Start-Ack with a non-zero octet written into its
    /// Must-Be-Zero field or its HMAC is rejected.
    pub proof fn lemma_mbz_rejected(m: StartAck, k: int, v: u8)
        requires
            m.wf(),
            1 <= k < 32,
            v != 0,
        ensures
            Self::check(m.wire().update(k, v)) == Err::<(), WireError>(WireError::MustBeZero),
    {
        let b = m.wire().update(k, v);
        if k < 16 {
            assert(b.subrange(1, 16)[k - 1] == v);
        } else {
            assert(b.subrange(16, 32)[k - 16] == v);
        }
    }
}

} // verus!
