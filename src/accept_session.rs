//! Accept-Session: the Server's answer to Request-TW-Session (RFC 5357 section 3.5).

use crate::codes::{accept_code, accept_of, Accept, WireError};
use crate::wire::{
    all_zero, be16, lemma_be16, push_bytes, push_u16, read_array, read_u16, u16_at, zero_at,
};
use vstd::prelude::*;

verus! {

#[derive(Clone, Copy, Debug, PartialEq, Eq)]
pub struct AcceptSession {
    /// The Server's willingness to run the session.
    pub accept: Accept,
    /// Must Be Zero.
    pub mbz_first: u8,
    /// The port the Session-Reflector listens on: the requested one or the one
    /// actually bound in its place.
    pub port: u16,
    /// Session identifier.
    pub sid: [u8; 16],
    /// Confirms the number of octets to reflect.
    pub reflected_octets: u16,
    /// Octets the Server expects in test packet padding.
    pub server_octets: u16,
    /// Must Be Zero.
    pub mbz_second: [u8; 8],
    /// Zero in unauthenticated mode.
    pub hmac: [u8; 16],
}

impl AcceptSession {
    pub const SERIALIZED_SIZE: usize = 48;

    pub open spec fn wf(self) -> bool {
        self.mbz_first == 0 && all_zero(self.mbz_second@) && all_zero(self.hmac@)
    }

    pub open spec fn wire(self) -> Seq<u8> {
        seq![accept_code(self.accept), self.mbz_first] + be16(self.port) + self.sid@ + be16(
            self.reflected_octets,
        ) + be16(self.server_octets) + self.mbz_second@ + self.hmac@
    }

    pub open spec fn check(b: Seq<u8>) -> Result<(), WireError> {
        if b.len() != 48 {
            Err(WireError::Length)
        } else if b[1] != 0 || !all_zero(b.subrange(24, 32)) || !all_zero(b.subrange(32, 48)) {
            Err(WireError::MustBeZero)
        } else if accept_of(b[0]) is None {
            Err(WireError::Accept)
        } else {
            Ok(())
        }
    }

    pub open spec fn decodes(b: Seq<u8>, m: AcceptSession) -> bool {
        &&& accept_of(b[0]) == Some(m.accept)
        &&& m.mbz_first == b[1]
        &&& m.port == u16_at(b, 2)
        &&& m.sid@ == b.subrange(4, 20)
        &&& m.reflected_octets == u16_at(b, 20)
        &&& m.server_octets == u16_at(b, 22)
        &&& m.mbz_second@ == b.subrange(24, 32)
        &&& m.hmac@ == b.subrange(32, 48)
    }

    /// An Accept-Session with the given answer, port and octet counts; zero SID,
    /// MBZ and HMAC fields.
    pub fn new(accept: Accept, port: u16, reflected_octets: u16, server_octets: u16) -> (r:
        AcceptSession)
        ensures
            r.wf(),
            r.accept == accept,
            r.port == port,
            r.reflected_octets == reflected_octets,
            r.server_octets == server_octets,
            all_zero(r.sid@),
            all_zero(r.hmac@),
    {
        AcceptSession {
            accept,
            mbz_first: 0,
            port,
            sid: [0u8; 16],
            reflected_octets,
            server_octets,
            mbz_second: [0u8; 8],
            hmac: [0u8; 16],
        }
    }

    pub fn to_bytes(&self) -> (r: Vec<u8>)
        ensures
            r@ == self.wire(),
    {
        let mut out: Vec<u8> = Vec::new();
        out.push(self.accept.code());
        out.push(self.mbz_first);
        push_u16(&mut out, self.port);
        push_bytes(&mut out, self.sid.as_slice());
        push_u16(&mut out, self.reflected_octets);
        push_u16(&mut out, self.server_octets);
        push_bytes(&mut out, self.mbz_second.as_slice());
        push_bytes(&mut out, self.hmac.as_slice());
        assert(out@ =~= self.wire());
        out
    }

    pub fn from_bytes(b: &[u8]) -> (r: Result<AcceptSession, WireError>)
        ensures
            match r {
                Ok(m) => Self::check(b@) is Ok && Self::decodes(b@, m),
                Err(e) => Self::check(b@) == Err::<(), WireError>(e),
            },
    {
        if b.len() != 48 {
            return Err(WireError::Length);
        }
        if b[1] != 0 || !zero_at(b, 24, 8) || !zero_at(b, 32, 16) {
            return Err(WireError::MustBeZero);
        }
        let accept = match Accept::from_code(b[0]) {
            Some(a) => a,
            None => {
                return Err(WireError::Accept);
            },
        };
        Ok(
            AcceptSession {
                accept,
                mbz_first: b[1],
                port: read_u16(b, 2),
                sid: read_array(b, 4),
                reflected_octets: read_u16(b, 20),
                server_octets: read_u16(b, 22),
                mbz_second: read_array(b, 24),
                hmac: read_array(b, 32),
            },
        )
    }

    /// A well-formed Accept-Session serializes to its declared size, and its image
    /// is accepted and decodes to the message itself.
    pub proof fn lemma_round_trip(m: AcceptSession, p: AcceptSession)
        requires
            m.wf(),
        ensures
            m.wire().len() == Self::SERIALIZED_SIZE,
            Self::check(m.wire()) is Ok,
            Self::decodes(m.wire(), p) ==> p == m,
    {
        let b = m.wire();
        assert(b[0] == accept_code(m.accept));
        assert(b[1] == m.mbz_first);
        assert(b.subrange(2, 4) =~= be16(m.port));
        assert(b.subrange(4, 20) =~= m.sid@);
        assert(b.subrange(20, 22) =~= be16(m.reflected_octets));
        assert(b.subrange(22, 24) =~= be16(m.server_octets));
        assert(b.subrange(24, 32) =~= m.mbz_second@);
        assert(b.subrange(32, 48) =~= m.hmac@);
        lemma_be16(m.port, b, 2);
        lemma_be16(m.reflected_octets, b, 20);
        lemma_be16(m.server_octets, b, 22);
        if Self::decodes(b, p) {
            assert(p.sid =~= m.sid);
            assert(p.mbz_second =~= m.mbz_second);
            assert(p.hmac =~= m.hmac);
        }
    }

    /// An image of a well-formed Accept-Session with a non-zero octet written into a
    /// Must-Be-Zero field or its HMAC is rejected.
    pub proof fn lemma_mbz_rejected(m: AcceptSession, k: int, v: u8)
        requires
            m.wf(),
            k == 1 || 24 <= k < 48,
            v != 0,
        ensures
            Self::check(m.wire().update(k, v)) == Err::<(), WireError>(WireError::MustBeZero),
    {
        let b = m.wire().update(k, v);
        if 24 <= k < 32 {
            assert(b.subrange(24, 32)[k - 24] == v);
        } else if k >= 32 {
            assert(b.subrange(32, 48)[k - 32] == v);
        }
    }
}

} // verus!
