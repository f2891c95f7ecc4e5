//! A span of time handed to the driver waits: whole seconds and the
//! nanoseconds of the last, incomplete second.
use vstd::prelude::*;

verus! {

/// Nanoseconds in one second.
pub const NANOS_PER_SEC: u32 = 1_000_000_000;

/// Nanoseconds in one millisecond.
pub const NANOS_PER_MILLI: u32 = 1_000_000;

/// Two to the power 32: the number of values of a `u32`.
pub open spec fn u32_modulus() -> nat {
    0x1_0000_0000
}

/// The seconds and nanoseconds of a `timespec`, as a Unix `poll` takes it.
#[derive(Clone, Copy, Debug, PartialEq, Eq, Structural)]
pub struct PollTimespec {
    /// Whole seconds.
    pub secs: i64,
    /// Nanoseconds past the whole seconds.
    pub nanos: i64,
}

/// A non-negative span of time, as `secs` seconds plus `nanos` nanoseconds,
/// with `nanos` below one second.
#[derive(Clone, Copy, Debug, PartialEq, Eq, Structural)]
pub struct Timeout {
    secs: u64,
    nanos: u32,
}

impl Timeout {
    #[verifier::type_invariant]
    spec fn inv(self) -> bool {
        self.nanos < NANOS_PER_SEC
    }

    /// The whole seconds.
    pub closed spec fn whole_secs(self) -> nat {
        self.secs as nat
    }

    /// The nanoseconds past the whole seconds.
    pub closed spec fn subsec(self) -> nat {
        self.nanos as nat
    }

    /// The empty span.
    pub closed spec fn zero_span() -> Timeout {
        Timeout { secs: 0, nanos: 0 }
    }

    /// The seconds fit a `u64` and the nanoseconds a `u32`.
    pub proof fn lemma_part_bounds(self)
        ensures
            self.whole_secs() <= u64::MAX,
            self.subsec() <= u32::MAX,
    {
    }

    /// The empty span has no seconds and no nanoseconds.
    pub proof fn lemma_zero_span()
        ensures
            Timeout::zero_span().whole_secs() == 0,
            Timeout::zero_span().subsec() == 0,
            Timeout::zero_span().total_nanos() == 0,
    {
    }

    /// The whole span in nanoseconds.
    pub open spec fn total_nanos(self) -> nat {
        self.whole_secs() * 1_000_000_000 + self.subsec()
    }

    /// The whole span in milliseconds, rounded down.
    pub open spec fn total_millis(self) -> nat {
        self.whole_secs() * 1000 + self.subsec() / 1_000_000
    }

    /// The span of `secs` seconds and `nanos` nanoseconds.
    pub fn new(secs: u64, nanos: u32) -> (t: Timeout)
        requires
            nanos < NANOS_PER_SEC,
        ensures
            t.whole_secs() == secs,
            t.subsec() == nanos,
    {
        Timeout { secs, nanos }
    }

    /// The empty span.
    pub fn zero() -> (t: Timeout)
        ensures
            t.whole_secs() == 0,
            t.subsec() == 0,
            t.total_nanos() == 0,
            t == Timeout::zero_span(),
    {
        Timeout { secs: 0, nanos: 0 }
    }

    /// The whole seconds.
    pub fn as_secs(&self) -> (s: u64)
        ensures
            s == self.whole_secs(),
    {
        self.secs
    }

    /// The nanoseconds past the whole seconds.
    pub fn subsec_nanos(&self) -> (n: u32)
        ensures
            n == self.subsec(),
            n < NANOS_PER_SEC,
    {
        proof {
            use_type_invariant(self);
        }
        self.nanos
    }

    /// The span as the seconds and nanoseconds of a `timespec` that a Unix
    /// `poll` takes, or `None` where the seconds do not fit the signed
    /// 64-bit seconds field.
    pub fn to_timespec(&self) -> (r: Option<PollTimespec>)
        ensures
            r is Some <==> self.whole_secs() <= i64::MAX,
            r matches Some(ts) ==> ts.secs == self.whole_secs() && ts.nanos == self.subsec(),
    {
        proof {
            use_type_invariant(self);
        }
        match timespec_parts(self.secs, self.nanos) {
            Some((secs, nanos)) => Some(PollTimespec { secs, nanos }),
            None => None,
        }
    }

    /// The span in milliseconds, rounded down and then cut to its low 32
    /// bits, as a `u32` millisecond count that a Windows wait takes.
    pub fn millis_truncated(&self) -> (m: u32)
        ensures
            m == self.total_millis() % u32_modulus(),
    {
        proof {
            use_type_invariant(self);
        }
        let millis: u128 = (self.secs as u128) * 1000 + ((self.nanos / NANOS_PER_MILLI) as u128);
        let low: u128 = millis % 0x1_0000_0000;
        low as u32
    }
}

/// The fields of the `timespec` for `secs` seconds and `nanos` nanoseconds,
/// or `None` where the seconds do not fit its signed 64-bit seconds field.
/// This is what rustix's `TryFrom<Duration>` for `Timespec` does: the seconds
/// go through a `u64`-to-`i64` `try_into` and the sub-second nanoseconds are
/// copied; its whole behaviour is stated by the `ensures` below, and the
/// conversion is proved here.
fn timespec_parts(secs: u64, nanos: u32) -> (r: Option<(i64, i64)>)
    requires
        nanos < NANOS_PER_SEC,
    ensures
        r is Some <==> secs <= i64::MAX,
        r matches Some((s, n)) ==> s == secs && n == nanos,
{
    if secs <= 0x7fff_ffff_ffff_ffff {
        Some((secs as i64, nanos as i64))
    } else {
        None
    }
}

/// A span below 2^32 milliseconds keeps its exact millisecond count when cut
/// to a `u32`.
pub proof fn lemma_millis_exact_below_limit(t: Timeout)
    requires
        t.total_millis() < u32_modulus(),
    ensures
        t.total_millis() % u32_modulus() == t.total_millis(),
{
    vstd::arithmetic::div_mod::lemma_small_mod(t.total_millis(), u32_modulus());
}

} // verus!
