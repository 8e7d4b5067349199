//! Server-Greeting: the first TWAMP-Control message (RFC 4656 section 3.1).

use crate::codes::{mode_bits, SecurityMode, WireError};
use crate::wire::{
    all_zero, be32, lemma_be32, push_bytes, push_u32, read_array, read_u32, u32_at, zero_at,
};
use vstd::prelude::*;

verus! {

/// Sent by the Server when the Control-Client has opened the TCP connection.
#[derive(Clone, Copy, Debug, PartialEq, Eq)]
pub struct ServerGreeting {
    /// Unused; Must Be Zero.
    pub unused: [u8; 12],
    /// Bitwise OR of the security modes the Server supports.
    pub mode: u32,
    /// Random octets; unused in unauthenticated mode.
    pub challenge: [u8; 16],
    /// Random octets for key derivation; unused in unauthenticated mode.
    pub salt: [u8; 16],
    /// Iteration count for key derivation.
    pub count: u32,
    /// Must Be Zero.
    pub mbz: [u8; 12],
}

/// Bitwise OR of the bits of `modes`.
pub open spec fn modes_or(modes: Seq<SecurityMode>) -> u32
    decreases modes.len(),
{
    if modes.len() == 0 {
        0
    } else {
        modes_or(modes.drop_last()) | mode_bits(modes.last())
    }
}

/// Whether a mode field offers `m`; `Reserved` is offered only by an empty field.
pub open spec fn offers(field: u32, m: SecurityMode) -> bool {
    if m == SecurityMode::Reserved {
        field | 0 == 0
    } else {
        field & mode_bits(m) == mode_bits(m)
    }
}

/// Default iteration count of a greeting.
pub const DEFAULT_COUNT: u32 = 1024;

impl ServerGreeting {
    pub const SERIALIZED_SIZE: usize = 64;

    /// Must-Be-Zero fields hold zeros.
    pub open spec fn wf(self) -> bool {
        all_zero(self.unused@) && all_zero(self.mbz@)
    }

    /// The wire image.
    pub open spec fn wire(self) -> Seq<u8> {
        self.unused@ + be32(self.mode) + self.challenge@ + self.salt@ + be32(self.count)
            + self.mbz@
    }

    /// Whether `b` is the image of a greeting, and if not, why.
    pub open spec fn check(b: Seq<u8>) -> Result<(), WireError> {
        if b.len() != 64 {
            Err(WireError::Length)
        } else if !all_zero(b.subrange(0, 12)) || !all_zero(b.subrange(52, 64)) {
            Err(WireError::MustBeZero)
        } else {
            Ok(())
        }
    }

    /// `m` holds the fields that `b` encodes.
    pub open spec fn decodes(b: Seq<u8>, m: ServerGreeting) -> bool {
        &&& m.unused@ == b.subrange(0, 12)
        &&& m.mode == u32_at(b, 12)
        &&& m.challenge@ == b.subrange(16, 32)
        &&& m.salt@ == b.subrange(32, 48)
        &&& m.count == u32_at(b, 48)
        &&& m.mbz@ == b.subrange(52, 64)
    }

    /// A greeting offering the OR of `modes`, with fresh random challenge and salt
    /// and the default count.
    pub fn new(modes: &[SecurityMode]) -> (r: ServerGreeting)
        ensures
            r.wf(),
            r.mode == modes_or(modes@),
            r.count == DEFAULT_COUNT,
            r.unused@ == Seq::new(12, |_i| 0u8),
            r.mbz@ == Seq::new(12, |_i| 0u8),
    {
        let mut mode: u32 = 0;
        let mut k: usize = 0;
        while k < modes.len()
            invariant
                k <= modes@.len(),
                mode == modes_or(modes@.subrange(0, k as int)),
            decreases modes@.len() - k,
        {
            assert(modes@.subrange(0, k + 1).drop_last() =~= modes@.subrange(0, k as int));
            mode = mode | modes[k].bits();
            k = k + 1;
        }
        assert(modes@.subrange(0, k as int) =~= modes@);
        let r = ServerGreeting {
            unused: [0u8; 12],
            mode,
            challenge: random_octets(),
            salt: random_octets(),
            count: DEFAULT_COUNT,
            mbz: [0u8; 12],
        };
        assert(r.unused@ =~= Seq::new(12, |_i| 0u8));
        assert(r.mbz@ =~= Seq::new(12, |_i| 0u8));
        r
    }

    /// The same greeting with another count.
    pub fn with_count(self, count: u32) -> (r: ServerGreeting)
        ensures
            r == (ServerGreeting { count, ..self }),
    {
        ServerGreeting { count, ..self }
    }

    pub fn count(&self) -> (r: u32)
        ensures
            r == self.count,
    {
        self.count
    }

    /// Whether the greeting offers `mode`.
    pub fn has_mode(&self, mode: SecurityMode) -> (r: bool)
        ensures
            r == offers(self.mode, mode),
    {
        let bits = mode.bits();
        match mode {
            SecurityMode::Reserved => self.mode | bits == bits,
            _ => self.mode & bits == bits,
        }
    }

    pub fn to_bytes(&self) -> (r: Vec<u8>)
        ensures
            r@ == self.wire(),
    {
        let mut out: Vec<u8> = Vec::new();
        push_bytes(&mut out, self.unused.as_slice());
        push_u32(&mut out, self.mode);
        push_bytes(&mut out, self.challenge.as_slice());
        push_bytes(&mut out, self.salt.as_slice());
        push_u32(&mut out, self.count);
        push_bytes(&mut out, self.mbz.as_slice());
        assert(out@ =~= self.wire());
        out
    }

    pub fn from_bytes(b: &[u8]) -> (r: Result<ServerGreeting, WireError>)
        ensures
            match r {
                Ok(m) => Self::check(b@) is Ok && Self::decodes(b@, m),
                Err(e) => Self::check(b@) == Err::<(), WireError>(e),
            },
    {
        if b.len() != 64 {
            return Err(WireError::Length);
        }
        if !zero_at(b, 0, 12) || !zero_at(b, 52, 12) {
            return Err(WireError::MustBeZero);
        }
        Ok(
            ServerGreeting {
                unused: read_array(b, 0),
                mode: read_u32(b, 12),
                challenge: read_array(b, 16),
                salt: read_array(b, 32),
                count: read_u32(b, 48),
                mbz: read_array(b, 52),
            },
        )
    }

    /// A well-formed greeting serializes to its declared size, and its image is
    /// accepted and decodes to the greeting itself.
    pub proof fn lemma_round_trip(m: ServerGreeting, p: ServerGreeting)
        requires
            m.wf(),
        ensures
            m.wire().len() == Self::SERIALIZED_SIZE,
            Self::check(m.wire()) is Ok,
            Self::decodes(m.wire(), p) ==> p == m,
    {
        let b = m.wire();
        assert(b.subrange(0, 12) =~= m.unused@);
        assert(b.subrange(12, 16) =~= be32(m.mode));
        assert(b.subrange(16, 32) =~= m.challenge@);
        assert(b.subrange(32, 48) =~= m.salt@);
        assert(b.subrange(48, 52) =~= be32(m.count));
        assert(b.subrange(52, 64) =~= m.mbz@);
        lemma_be32(m.mode, b, 12);
        lemma_be32(m.count, b, 48);
        if Self::decodes(b, p) {
            assert(p.unused =~= m.unused);
            assert(p.challenge =~= m.challenge);
            assert(p.salt =~= m.salt);
            assert(p.mbz =~= m.mbz);
        }
    }

    /// An image of a well-formed greeting with a non-zero octet written into a
    /// Must-Be-Zero field is rejected.
    pub proof fn lemma_mbz_rejected(m: ServerGreeting, k: int, v: u8)
        requires
            m.wf(),
            0 <= k < 12 || 52 <= k < 64,
            v != 0,
        ensures
            Self::check(m.wire().update(k, v)) == Err::<(), WireError>(WireError::MustBeZero),
    {
        let b = m.wire().update(k, v);
        if k < 12 {
            assert(b.subrange(0, 12)[k] == v);
        } else {
            assert(b.subrange(52, 64)[k - 52] == v);
        }
    }
}

/// Sixteen random octets.
fn random_octets() -> (r: [u8; 16]) {
    let mut a = [0u8; 16];
    let mut k: usize = 0;
    while k < 16
        invariant
            k <= 16,
        decreases 16 - k,
    {
        a[k] = random_octet();
        k = k + 1;
    }
    a
}

/// Relies on `rand::random::<u8>`: one octet from the thread-local generator.
#[verifier::external_body]
fn random_octet() -> (r: u8) {
    rand::random::<u8>()
}

} // verus!
