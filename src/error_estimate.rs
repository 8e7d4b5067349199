//! Error Estimate of a TWAMP-Test timestamp (RFC 4656 section 4.1.2).

use crate::codes::WireError;
use vstd::prelude::*;

verus! {

/// Packed as S (1 bit), MBZ (1 bit), Scale (6 bits), then Multiplier (8 bits).
/// The estimate is Multiplier * 2^(Scale - 32) seconds.
#[derive(Clone, Copy, Debug, PartialEq, Eq, Structural)]
pub struct ErrorEstimate {
    /// One when the clock is synchronized to UTC by an external source.
    pub s: u8,
    /// Must Be Zero.
    pub mbz: u8,
    pub scale: u8,
    /// Never zero in a valid estimate.
    pub multiplier: u8,
}

/// Whether two octets form an estimate, and if not, why.
pub open spec fn estimate_check(b0: u8, b1: u8) -> Result<(), WireError> {
    if (b0 / 64) % 2 != 0 {
        Err(WireError::MustBeZero)
    } else if b1 == 0 {
        Err(WireError::ErrorEstimate)
    } else {
        Ok(())
    }
}

impl ErrorEstimate {
    pub open spec fn wf(self) -> bool {
        self.s < 2 && self.mbz == 0 && self.scale < 64 && self.multiplier != 0
    }

    pub open spec fn wire(self) -> Seq<u8> {
        seq![(self.s * 128 + self.mbz * 64 + self.scale) as u8, self.multiplier]
    }

    pub open spec fn decodes(b0: u8, b1: u8, e: ErrorEstimate) -> bool {
        e == ErrorEstimate { s: b0 / 128, mbz: (b0 / 64) % 2, scale: b0 % 64, multiplier: b1 }
    }

    pub open spec fn new_spec(ntp_synchronized: bool) -> ErrorEstimate {
        if ntp_synchronized {
            ErrorEstimate { s: 1, mbz: 0, scale: 0, multiplier: 1 }
        } else {
            ErrorEstimate { s: 0, mbz: 0, scale: 63, multiplier: 255 }
        }
    }

    /// The estimate of a synchronized clock (S set, scale 0, multiplier 1) or of an
    /// unsynchronized one (S clear, scale 63, multiplier 255).
    pub fn new(ntp_synchronized: bool) -> (r: ErrorEstimate)
        ensures
            r == Self::new_spec(ntp_synchronized),
            r.wf(),
            r.wire() == if ntp_synchronized {
                seq![0x80u8, 0x01u8]
            } else {
                seq![0x3fu8, 0xffu8]
            },
    {
        if ntp_synchronized {
            ErrorEstimate { s: 1, mbz: 0, scale: 0, multiplier: 1 }
        } else {
            ErrorEstimate { s: 0, mbz: 0, scale: 63, multiplier: 255 }
        }
    }

    /// The first octet on the wire.
    pub fn first_octet(&self) -> (r: u8)
        requires
            self.s < 2,
            self.mbz < 2,
            self.scale < 64,
        ensures
            r == self.wire()[0],
    {
        self.s * 128 + self.mbz * 64 + self.scale
    }

    /// The estimate two octets encode.
    pub fn from_octets(b0: u8, b1: u8) -> (r: Result<ErrorEstimate, WireError>)
        ensures
            match r {
                Ok(e) => estimate_check(b0, b1) is Ok && Self::decodes(b0, b1, e),
                Err(err) => estimate_check(b0, b1) == Err::<(), WireError>(err),
            },
    {
        if (b0 / 64) % 2 != 0 {
            return Err(WireError::MustBeZero);
        }
        if b1 == 0 {
            return Err(WireError::ErrorEstimate);
        }
        Ok(ErrorEstimate { s: b0 / 128, mbz: (b0 / 64) % 2, scale: b0 % 64, multiplier: b1 })
    }

    /// The octets of a valid estimate are accepted and decode to it.
    pub proof fn lemma_round_trip(e: ErrorEstimate)
        requires
            e.wf(),
        ensures
            estimate_check(e.wire()[0], e.wire()[1]) is Ok,
            Self::decodes(e.wire()[0], e.wire()[1], e),
    {
        let b0 = e.wire()[0];
        assert(b0 == e.s * 128 + e.scale);
        assert(b0 / 128 == e.s);
        assert(b0 % 64 == e.scale);
        assert((b0 / 64) % 2 == 0);
    }
}

} // verus!
