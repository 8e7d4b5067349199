//! Stop-Sessions: the Control-Client's end of the test (RFC 5357 section 3.8).

use crate::codes::{accept_code, accept_of, command_code, Accept, CommandNumber, WireError};
use crate::wire::{
    all_zero, be16, lemma_be16, push_bytes, push_u16, read_array, read_u16, u16_at, zero_at,
};
use vstd::prelude::*;

verus! {

#[derive(Clone, Copy, Debug, PartialEq, Eq)]
pub struct StopSessions {
    /// Always `StopSessions`.
    pub command_number: CommandNumber,
    /// Whether the sessions ended normally.
    pub accept: Accept,
    /// Must Be Zero.
    pub mbz: u16,
    /// Zero in unauthenticated mode.
    pub hmac: [u8; 16],
}

impl StopSessions {
    pub const SERIALIZED_SIZE: usize = 20;

    pub open spec fn wf(self) -> bool {
        self.command_number == CommandNumber::StopSessions && self.mbz == 0 && all_zero(self.hmac@)
    }

    pub open spec fn wire(self) -> Seq<u8> {
        seq![command_code(self.command_number), accept_code(self.accept)] + be16(self.mbz)
            + self.hmac@
    }

    pub open spec fn check(b: Seq<u8>) -> Result<(), WireError> {
        if b.len() != 20 {
            Err(WireError::Length)
        } else if b[0] != 3 {
            Err(WireError::Command)
        } else if b[2] != 0 || b[3] != 0 || !all_zero(b.subrange(4, 20)) {
            Err(WireError::MustBeZero)
        } else if accept_of(b[1]) is None {
            Err(WireError::Accept)
        } else {
            Ok(())
        }
    }

    pub open spec fn decodes(b: Seq<u8>, m: StopSessions) -> bool {
        &&& m.command_number == CommandNumber::StopSessions
        &&& accept_of(b[1]) == Some(m.accept)
        &&& m.mbz == u16_at(b, 2)
        &&& m.hmac@ == b.subrange(4, 20)
    }

    pub fn new(accept: Accept) -> (r: StopSessions)
        ensures
            r.wf(),
            r.accept == accept,
            r.hmac@ == Seq::new(16, |_i| 0u8),
    {
        let r = StopSessions {
            command_number: CommandNumber::StopSessions,
            accept,
            mbz: 0,
            hmac: [0u8; 16],
        };
        assert(r.hmac@ =~= Seq::new(16, |_i| 0u8));
        r
    }

    pub fn to_bytes(&self) -> (r: Vec<u8>)
        ensures
            r@ == self.wire(),
    {
        let mut out: Vec<u8> = Vec::new();
        out.push(self.command_number.code());
        out.push(self.accept.code());
        push_u16(&mut out, self.mbz);
        push_bytes(&mut out, self.hmac.as_slice());
        assert(out@ =~= self.wire());
        out
    }

    pub fn from_bytes(b: &[u8]) -> (r: Result<StopSessions, WireError>)
        ensures
            match r {
                Ok(m) => Self::check(b@) is Ok && Self::decodes(b@, m),
                Err(e) => Self::check(b@) == Err::<(), WireError>(e),
            },
    {
        if b.len() != 20 {
            return Err(WireError::Length);
        }
        if b[0] != 3 {
            return Err(WireError::Command);
        }
        if b[2] != 0 || b[3] != 0 || !zero_at(b, 4, 16) {
            return Err(WireError::MustBeZero);
        }
        let accept = match Accept::from_code(b[1]) {
            Some(a) => a,
            None => {
                return Err(WireError::Accept);
            },
        };
        Ok(
            StopSessions {
                command_number: CommandNumber::StopSessions,
                accept,
                mbz: read_u16(b, 2),
                hmac: read_array(b, 4),
            },
        )
    }

    /// A well-formed Stop-Sessions serializes to its declared size, and its image
    /// is accepted and decodes to the message itself.
    pub proof fn lemma_round_trip(m: StopSessions, p: StopSessions)
        requires
            m.wf(),
        ensures
            m.wire().len() == Self::SERIALIZED_SIZE,
            Self::check(m.wire()) is Ok,
            Self::decodes(m.wire(), p) ==> p == m,
    {
        let b = m.wire();
        assert(b[1] == accept_code(m.accept));
        assert(b.subrange(2, 4) =~= be16(m.mbz));
        assert(b.subrange(4, 20) =~= m.hmac@);
        lemma_be16(m.mbz, b, 2);
        if Self::decodes(b, p) {
            assert(p.hmac =~= m.hmac);
        }
    }

    /// An image of a well-formed Stop-Sessions with a non-zero octet written into
    /// its Must-Be-Zero field or its HMAC is rejected.
    pub proof fn lemma_mbz_rejected(m: StopSessions, k: int, v: u8)
        requires
            m.wf(),
            2 <= k < 20,
            v != 0,
        ensures
            Self::check(m.wire().update(k, v)) == Err::<(), WireError>(WireError::MustBeZero),
    {
        let b = m.wire().update(k, v);
        if k >= 4 {
            assert(b.subrange(4, 20)[k - 4] == v);
        }
    }

    /// An image whose first octet is not the Stop-Sessions command is rejected.
    pub proof fn lemma_command_checked(b: Seq<u8>)
        requires
            b.len() == Self::SERIALIZED_SIZE,
            b[0] != 3,
        ensures
            Self::check(b) == Err::<(), WireError>(WireError::Command),
    {
    }
}

} // verus!
