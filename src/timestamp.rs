//! NTP timestamps (RFC 1305 layout) and their arithmetic.

use vstd::arithmetic::div_mod::{lemma_add_mod_noop, lemma_small_mod, lemma_sub_mod_noop};
use crate::wire::{be32, lemma_be32, push_u32, read_u32, u32_at};
use vstd::prelude::*;

verus! {

/// Seconds from the NTP epoch (1900-01-01) to the Unix epoch (1970-01-01).
pub const NTP_EPOCH: u64 = 2_208_988_800;

/// The integer-seconds field counts modulo this value.
pub const SECONDS_MODULUS: u64 = 0x1_0000_0000;

/// One carry of the fractional field into the integer field.
pub const FRACTION_CARRY: u32 = 0xffff_ffff;

/// An NTP timestamp: seconds since the NTP epoch modulo 2^32, and a fraction of a
/// second. Timestamps made from the clock hold nanoseconds in the fraction.
#[derive(Clone, Copy, Debug, PartialEq, Eq, Structural)]
pub struct TimeStamp {
    pub integer_part_of_seconds: u32,
    pub fractional_part_of_seconds: u32,
}

/// Whether the fraction is below one carry, as every timestamp that the clock or
/// the arithmetic below produces from such values is.
pub open spec fn canonical(t: TimeStamp) -> bool {
    t.fractional_part_of_seconds < FRACTION_CARRY
}

/// The integer field `x` modulo 2^32.
pub open spec fn wrap_seconds(x: int) -> u32 {
    (x % (SECONDS_MODULUS as int)) as u32
}

/// Sum with the fraction carried into the integer part.
pub open spec fn ts_add(a: TimeStamp, b: TimeStamp) -> TimeStamp {
    let f = a.fractional_part_of_seconds as int + b.fractional_part_of_seconds as int;
    let i = a.integer_part_of_seconds as int + b.integer_part_of_seconds as int;
    if f >= FRACTION_CARRY as int {
        TimeStamp {
            integer_part_of_seconds: wrap_seconds(i + 1),
            fractional_part_of_seconds: (f - FRACTION_CARRY as int) as u32,
        }
    } else {
        TimeStamp { integer_part_of_seconds: wrap_seconds(i), fractional_part_of_seconds: f as u32 }
    }
}

/// Difference with a borrow from the integer part when the fraction underflows.
pub open spec fn ts_sub(a: TimeStamp, b: TimeStamp) -> TimeStamp {
    let fa = a.fractional_part_of_seconds as int;
    let fb = b.fractional_part_of_seconds as int;
    let i = a.integer_part_of_seconds as int - b.integer_part_of_seconds as int;
    if fa < fb {
        TimeStamp {
            integer_part_of_seconds: wrap_seconds(i - 1),
            fractional_part_of_seconds: (fa + FRACTION_CARRY as int - fb) as u32,
        }
    } else {
        TimeStamp { integer_part_of_seconds: wrap_seconds(i), fractional_part_of_seconds: (fa - fb) as u32 }
    }
}

/// Left fold of `ts_add` over `s`, starting from the zero timestamp.
pub open spec fn ts_sum(s: Seq<TimeStamp>) -> TimeStamp
    decreases s.len(),
{
    if s.len() == 0 {
        TimeStamp { integer_part_of_seconds: 0, fractional_part_of_seconds: 0 }
    } else {
        ts_add(ts_sum(s.drop_last()), s.last())
    }
}

/// The timestamp of the instant `secs` seconds and `nanos` nanoseconds after the
/// Unix epoch.
pub open spec fn ts_from_unix(secs: int, nanos: u32) -> TimeStamp {
    TimeStamp {
        integer_part_of_seconds: wrap_seconds(secs + NTP_EPOCH),
        fractional_part_of_seconds: nanos,
    }
}

impl TimeStamp {
    pub open spec fn integer(self) -> u32 {
        self.integer_part_of_seconds
    }

    pub open spec fn fraction(self) -> u32 {
        self.fractional_part_of_seconds
    }

    pub open spec fn new_spec(integer_part_of_seconds: u32, fractional_part_of_seconds: u32) -> TimeStamp {
        TimeStamp { integer_part_of_seconds, fractional_part_of_seconds }
    }

    /// A timestamp with the given fields.
    pub fn new(integer_part_of_seconds: u32, fractional_part_of_seconds: u32) -> (r: TimeStamp)
        ensures
            r == Self::new_spec(integer_part_of_seconds, fractional_part_of_seconds),
    {
        TimeStamp { integer_part_of_seconds, fractional_part_of_seconds }
    }

    pub fn integer_part_of_seconds(&self) -> (r: u32)
        ensures
            r == self.integer(),
    {
        self.integer_part_of_seconds
    }

    /// The fractional field; nanoseconds for a timestamp taken from the clock.
    pub fn fractional_part_of_seconds(&self) -> (r: u32)
        ensures
            r == self.fraction(),
    {
        self.fractional_part_of_seconds
    }

    /// The timestamp of a point `secs` seconds and `nanos` nanoseconds after the
    /// Unix epoch: the NTP epoch offset is added and the seconds wrap at 2^32.
    pub fn from_unix(secs: u64, nanos: u32) -> (r: TimeStamp)
        ensures
            r == ts_from_unix(secs as int, nanos),
    {
        let low = secs % SECONDS_MODULUS;
        let i = (low + NTP_EPOCH) % SECONDS_MODULUS;
        proof {
            lemma_add_mod_noop(secs as int, NTP_EPOCH as int, SECONDS_MODULUS as int);
            lemma_small_mod(NTP_EPOCH as nat, SECONDS_MODULUS as nat);
        }
        TimeStamp { integer_part_of_seconds: i as u32, fractional_part_of_seconds: nanos }
    }

    /// The timestamp of a duration since the Unix epoch.
    pub fn from_duration(d: std::time::Duration) -> (r: TimeStamp)
        ensures
            r == ts_from_unix(duration_secs_of(d) as int, duration_nanos_of(d)),
            canonical(r),
            r.fraction() < 1_000_000_000,
    {
        TimeStamp::from_unix(duration_secs(&d), duration_subsec_nanos(&d))
    }

    /// The current wall-clock time. A clock set before the Unix epoch reads as
    /// the Unix epoch.
    pub fn now() -> (r: TimeStamp)
        ensures
            canonical(r),
            r.fraction() < 1_000_000_000,
    {
        match unix_elapsed() {
            Some(d) => TimeStamp::from_duration(d),
            None => TimeStamp::from_unix(0, 0),
        }
    }

    /// The sum of `ts`, added from left to right.
    pub fn sum(ts: &[TimeStamp]) -> (r: TimeStamp)
        ensures
            r == ts_sum(ts@),
    {
        let mut acc = TimeStamp { integer_part_of_seconds: 0, fractional_part_of_seconds: 0 };
        let mut k: usize = 0;
        while k < ts.len()
            invariant
                k <= ts@.len(),
                acc == ts_sum(ts@.subrange(0, k as int)),
            decreases ts@.len() - k,
        {
            assert(ts@.subrange(0, k + 1).drop_last() =~= ts@.subrange(0, k as int));
            acc = acc + ts[k];
            k = k + 1;
        }
        assert(ts@.subrange(0, k as int) =~= ts@);
        acc
    }
}

impl std::ops::Add for TimeStamp {
    type Output = TimeStamp;

    fn add(self, rhs: TimeStamp) -> (r: TimeStamp)
        ensures
            r == ts_add(self, rhs),
    {
        let f = self.fractional_part_of_seconds as u64 + rhs.fractional_part_of_seconds as u64;
        let i = self.integer_part_of_seconds as u64 + rhs.integer_part_of_seconds as u64;
        if f >= FRACTION_CARRY as u64 {
            TimeStamp {
                integer_part_of_seconds: ((i + 1) % SECONDS_MODULUS) as u32,
                fractional_part_of_seconds: (f - FRACTION_CARRY as u64) as u32,
            }
        } else {
            TimeStamp {
                integer_part_of_seconds: (i % SECONDS_MODULUS) as u32,
                fractional_part_of_seconds: f as u32,
            }
        }
    }
}

impl vstd::std_specs::ops::AddSpecImpl for TimeStamp {
    open spec fn obeys_add_spec() -> bool {
        true
    }

    open spec fn add_req(self, rhs: TimeStamp) -> bool {
        true
    }

    open spec fn add_spec(self, rhs: TimeStamp) -> TimeStamp {
        ts_add(self, rhs)
    }
}

impl std::ops::Sub for TimeStamp {
    type Output = TimeStamp;

    fn sub(self, rhs: TimeStamp) -> (r: TimeStamp)
        ensures
            r == ts_sub(self, rhs),
    {
        let fa = self.fractional_part_of_seconds as u64;
        let fb = rhs.fractional_part_of_seconds as u64;
        let ia = self.integer_part_of_seconds as u64;
        let ib = rhs.integer_part_of_seconds as u64;
        proof {
            lemma_mod_shift(ia as int - ib as int);
            lemma_mod_shift(ia as int - ib as int - 1);
        }
        if fa < fb {
            TimeStamp {
                integer_part_of_seconds: ((ia + SECONDS_MODULUS - ib - 1) % SECONDS_MODULUS) as u32,
                fractional_part_of_seconds: (fa + FRACTION_CARRY as u64 - fb) as u32,
            }
        } else {
            TimeStamp {
                integer_part_of_seconds: ((ia + SECONDS_MODULUS - ib) % SECONDS_MODULUS) as u32,
                fractional_part_of_seconds: (fa - fb) as u32,
            }
        }
    }
}

impl vstd::std_specs::ops::SubSpecImpl for TimeStamp {
    open spec fn obeys_sub_spec() -> bool {
        true
    }

    open spec fn sub_req(self, rhs: TimeStamp) -> bool {
        true
    }

    open spec fn sub_spec(self, rhs: TimeStamp) -> TimeStamp {
        ts_sub(self, rhs)
    }
}

impl Default for TimeStamp {
    /// The current wall-clock time.
    fn default() -> (r: TimeStamp)
        ensures
            canonical(r),
            r.fraction() < 1_000_000_000,
    {
        TimeStamp::now()
    }
}

proof fn lemma_mod_shift(x: int)
    ensures
        (x + SECONDS_MODULUS as int) % (SECONDS_MODULUS as int) == x % (SECONDS_MODULUS as int),
{
    vstd::arithmetic::div_mod::lemma_mod_add_multiples_vanish(x, SECONDS_MODULUS as int);
}

/// Subtracting what was added gives the first operand back, for fractions below
/// one carry.
pub proof fn lemma_add_then_sub(a: TimeStamp, b: TimeStamp)
    requires
        canonical(a),
        canonical(b),
    ensures
        ts_sub(ts_add(a, b), b) == a,
{
    let m = SECONDS_MODULUS as int;
    let ai = a.integer_part_of_seconds as int;
    let bi = b.integer_part_of_seconds as int;
    let f = a.fractional_part_of_seconds as int + b.fractional_part_of_seconds as int;
    let c: int = if f >= FRACTION_CARRY as int { 1 } else { 0 };
    let s = ts_add(a, b);
    assert(s.integer_part_of_seconds as int == (ai + bi + c) % m);
    lemma_sub_mod_noop(ai + bi + c, bi + c, m);
    lemma_small_mod(ai as nat, m as nat);
    lemma_small_mod((bi + c) as nat, (m + 1) as nat);
    if bi + c == m {
        vstd::arithmetic::div_mod::lemma_mod_self_0(m);
        vstd::arithmetic::div_mod::lemma_mod_add_multiples_vanish(ai, m);
    } else {
        lemma_small_mod((bi + c) as nat, m as nat);
    }
    assert(((ai + bi + c) % m - (bi + c) % m) % m == ai);
}

/// A duration below 2^32 seconds, turned into a timestamp and measured from the
/// timestamp of the Unix epoch, gives back its seconds and nanoseconds.
pub proof fn lemma_since_epoch(secs: u64, nanos: u32)
    requires
        secs < SECONDS_MODULUS,
    ensures
        ts_sub(ts_from_unix(secs as int, nanos), ts_from_unix(0, 0))
            == TimeStamp::new_spec(secs as u32, nanos),
{
    let m = SECONDS_MODULUS as int;
    lemma_sub_mod_noop(secs + NTP_EPOCH as int, NTP_EPOCH as int, m);
    lemma_small_mod(NTP_EPOCH as nat, m as nat);
    lemma_small_mod(secs as nat, m as nat);
    lemma_small_mod((0 + NTP_EPOCH) as nat, m as nat);
    lemma_sub_mod_noop(secs + NTP_EPOCH as int, NTP_EPOCH as int, m);
}

/// Summing a sequence with one more element adds that element to the sum.
pub proof fn lemma_sum_push(s: Seq<TimeStamp>, t: TimeStamp)
    ensures
        ts_sum(s.push(t)) == ts_add(ts_sum(s), t),
{
    assert(s.push(t).drop_last() =~= s);
}

/// The eight octets of `t` on the wire: integer part, then fraction, big-endian.
pub open spec fn ts_wire(t: TimeStamp) -> Seq<u8> {
    be32(t.integer_part_of_seconds) + be32(t.fractional_part_of_seconds)
}

/// The timestamp whose octets start at offset `i` of `s`.
pub open spec fn ts_at(s: Seq<u8>, i: int) -> TimeStamp {
    TimeStamp { integer_part_of_seconds: u32_at(s, i), fractional_part_of_seconds: u32_at(s, i + 4) }
}

pub proof fn lemma_ts_wire(t: TimeStamp, s: Seq<u8>, i: int)
    requires
        0 <= i,
        i + 8 <= s.len(),
        s.subrange(i, i + 8) == ts_wire(t),
    ensures
        ts_at(s, i) == t,
{
    assert(s.subrange(i, i + 4) =~= s.subrange(i, i + 8).subrange(0, 4));
    assert(s.subrange(i + 4, i + 8) =~= s.subrange(i, i + 8).subrange(4, 8));
    assert(ts_wire(t).subrange(0, 4) =~= be32(t.integer_part_of_seconds));
    assert(ts_wire(t).subrange(4, 8) =~= be32(t.fractional_part_of_seconds));
    lemma_be32(t.integer_part_of_seconds, s, i);
    lemma_be32(t.fractional_part_of_seconds, s, i + 4);
}

/// Appends the eight octets of `t`.
pub fn push_timestamp(out: &mut Vec<u8>, t: TimeStamp)
    ensures
        final(out)@ == old(out)@ + ts_wire(t),
{
    push_u32(out, t.integer_part_of_seconds);
    push_u32(out, t.fractional_part_of_seconds);
    assert(final(out)@ =~= old(out)@ + ts_wire(t));
}

/// The timestamp at offset `i`.
pub fn read_timestamp(b: &[u8], i: usize) -> (r: TimeStamp)
    requires
        i + 8 <= b@.len(),
    ensures
        r == ts_at(b@, i as int),
{
    let _len = b.len();
    TimeStamp { integer_part_of_seconds: read_u32(b, i), fractional_part_of_seconds: read_u32(b, i + 4) }
}

/// The whole seconds of a duration.
pub uninterp spec fn duration_secs_of(d: std::time::Duration) -> u64;

/// The nanoseconds of a duration past its last whole second.
pub uninterp spec fn duration_nanos_of(d: std::time::Duration) -> u32;

/// Relies on `Duration::as_secs`: the whole seconds of `d`.
#[verifier::external_body]
fn duration_secs(d: &std::time::Duration) -> (r: u64)
    ensures
        r == duration_secs_of(*d),
{
    d.as_secs()
}

/// Relies on `Duration::subsec_nanos`: the nanoseconds past the last whole second,
/// always below one billion.
#[verifier::external_body]
fn duration_subsec_nanos(d: &std::time::Duration) -> (r: u32)
    ensures
        r == duration_nanos_of(*d),
        r < 1_000_000_000,
{
    d.subsec_nanos()
}

/// Relies on `SystemTime::elapsed` from the Unix epoch: the time since then, or
/// nothing when the clock reads earlier.
#[verifier::external_body]
fn unix_elapsed() -> (r: Option<std::time::Duration>) {
    std::time::UNIX_EPOCH.elapsed().ok()
}

} // verus!
