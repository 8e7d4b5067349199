//! Set-Up-Response: the Control-Client's choice of mode (RFC 4656 section 3.1).

use crate::codes::{mode_bits, mode_of, SecurityMode, WireError};
use crate::wire::{all_zero, be32, lemma_be32, push_bytes, push_u32, read_array, read_u32, u32_at};
use vstd::prelude::*;

verus! {

#[derive(Clone, Copy, Debug, PartialEq, Eq)]
pub struct SetUpResponse {
    /// The security mode the Control-Client selects.
    pub mode: SecurityMode,
    /// Shared-secret identifier; zero in unauthenticated mode.
    pub key_id: [u8; 80],
    /// Encrypted session keys; zero in unauthenticated mode.
    pub token: [u8; 64],
    /// Client IV; zero in unauthenticated mode.
    pub client_iv: [u8; 16],
}

/// Whether this library can run a session in `mode`.
pub open spec fn supported_mode(mode: SecurityMode) -> bool {
    mode == SecurityMode::Reserved || mode == SecurityMode::Unauthenticated
}

impl SetUpResponse {
    pub const SERIALIZED_SIZE: usize = 164;

    pub open spec fn wire(self) -> Seq<u8> {
        be32(mode_bits(self.mode)) + self.key_id@ + self.token@ + self.client_iv@
    }

    pub open spec fn check(b: Seq<u8>) -> Result<(), WireError> {
        if b.len() != 164 {
            Err(WireError::Length)
        } else if mode_of(u32_at(b, 0)) is None {
            Err(WireError::Mode)
        } else {
            Ok(())
        }
    }

    pub open spec fn decodes(b: Seq<u8>, m: SetUpResponse) -> bool {
        &&& mode_of(u32_at(b, 0)) == Some(m.mode)
        &&& m.key_id@ == b.subrange(4, 84)
        &&& m.token@ == b.subrange(84, 148)
        &&& m.client_iv@ == b.subrange(148, 164)
    }

    /// A Set-Up-Response selecting `mode`, with zero key id, token and IV. Modes
    /// that need keys are refused and handed back.
    pub fn new(mode: SecurityMode) -> (r: Result<SetUpResponse, SecurityMode>)
        ensures
            supported_mode(mode) <==> r is Ok,
            match r {
                Ok(m) => m.mode == mode && all_zero(m.key_id@) && all_zero(m.token@) && all_zero(
                    m.client_iv@,
                ),
                Err(e) => e == mode,
            },
    {
        match mode {
            SecurityMode::Reserved | SecurityMode::Unauthenticated => Ok(
                SetUpResponse { mode, key_id: [0u8; 80], token: [0u8; 64], client_iv: [0u8; 16] },
            ),
            _ => Err(mode),
        }
    }

    pub fn to_bytes(&self) -> (r: Vec<u8>)
        ensures
            r@ == self.wire(),
    {
        let mut out: Vec<u8> = Vec::new();
        push_u32(&mut out, self.mode.bits());
        push_bytes(&mut out, self.key_id.as_slice());
        push_bytes(&mut out, self.token.as_slice());
        push_bytes(&mut out, self.client_iv.as_slice());
        assert(out@ =~= self.wire());
        out
    }

    pub fn from_bytes(b: &[u8]) -> (r: Result<SetUpResponse, WireError>)
        ensures
            match r {
                Ok(m) => Self::check(b@) is Ok && Self::decodes(b@, m),
                Err(e) => Self::check(b@) == Err::<(), WireError>(e),
            },
    {
        if b.len() != 164 {
            return Err(WireError::Length);
        }
        let mode = match SecurityMode::from_bits(read_u32(b, 0)) {
            Some(m) => m,
            None => {
                return Err(WireError::Mode);
            },
        };
        Ok(
            SetUpResponse {
                mode,
                key_id: read_array(b, 4),
                token: read_array(b, 84),
                client_iv: read_array(b, 148),
            },
        )
    }

    /// A Set-Up-Response serializes to its declared size, and its image is accepted
    /// and decodes to the message itself.
    pub proof fn lemma_round_trip(m: SetUpResponse, p: SetUpResponse)
        ensures
            m.wire().len() == Self::SERIALIZED_SIZE,
            Self::check(m.wire()) is Ok,
            Self::decodes(m.wire(), p) ==> p == m,
    {
        let b = m.wire();
        assert(b.subrange(0, 4) =~= be32(mode_bits(m.mode)));
        assert(b.subrange(4, 84) =~= m.key_id@);
        assert(b.subrange(84, 148) =~= m.token@);
        assert(b.subrange(148, 164) =~= m.client_iv@);
        lemma_be32(mode_bits(m.mode), b, 0);
        if Self::decodes(b, p) {
            assert(p.key_id =~= m.key_id);
            assert(p.token =~= m.token);
            assert(p.client_iv =~= m.client_iv);
        }
    }
}

} // verus!
