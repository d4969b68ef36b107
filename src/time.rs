//! Conversion between delays and the native absolute-deadline encoding.
use vstd::prelude::*;

verus! {

/// Nanoseconds in one second.
pub const NSEC_PER_SEC: u64 = 1_000_000_000;

/// The deadline token meaning "now".
pub const DISPATCH_TIME_NOW: u64 = 0;

/// The deadline token meaning "never time out".
pub const DISPATCH_TIME_FOREVER: u64 = 0xffff_ffff_ffff_ffff;

/// The largest nanosecond offset that the native encoding can carry
/// (the largest value of a signed 64-bit integer).
pub const MAX_DELTA_NANOS: u64 = 0x7fff_ffff_ffff_ffff;

/// A span of time: whole seconds plus a sub-second part in nanoseconds.
#[derive(Clone, Copy, Debug, PartialEq, Eq, Structural)]
pub struct Delay {
    pub secs: u64,
    pub nanos: u32,
}

impl Delay {
    /// The sub-second part is below one second.
    pub open spec fn wf(self) -> bool {
        self.nanos < NSEC_PER_SEC
    }

    /// The whole span in nanoseconds.
    pub open spec fn total_nanos(self) -> nat {
        (self.secs * NSEC_PER_SEC + self.nanos) as nat
    }

    /// A delay of `secs` seconds and `nanos` nanoseconds.
    pub fn new(secs: u64, nanos: u32) -> (r: Delay)
        requires
            nanos < NSEC_PER_SEC,
        ensures
            r.wf(),
            r.secs == secs,
            r.nanos == nanos,
    {
        Delay { secs, nanos }
    }

    /// A delay of whole seconds.
    pub fn from_secs(secs: u64) -> (r: Delay)
        ensures
            r.wf(),
            r.total_nanos() == secs * NSEC_PER_SEC,
    {
        Delay { secs, nanos: 0 }
    }

    /// A delay of whole milliseconds.
    pub fn from_millis(millis: u64) -> (r: Delay)
        ensures
            r.wf(),
            r.total_nanos() == millis * 1_000_000,
    {
        let secs: u64 = millis / 1000;
        let rest: u64 = millis % 1000;
        let nanos: u32 = (rest * 1_000_000) as u32;
        assert(millis * 1_000_000 == secs * NSEC_PER_SEC + rest * 1_000_000) by (nonlinear_arith)
            requires
                secs == millis / 1000,
                rest == millis % 1000,
        ;
        Delay { secs, nanos }
    }

    /// The whole seconds of the delay.
    pub fn as_secs(&self) -> (r: u64)
        ensures
            r == self.secs,
    {
        self.secs
    }

    /// The sub-second part of the delay, in nanoseconds.
    pub fn subsec_nanos(&self) -> (r: u32)
        ensures
            r == self.nanos,
    {
        self.nanos
    }
}

/// The deadline token for `d` from now: its length in nanoseconds where that
/// fits in a signed 64-bit offset, else "forever".
pub open spec fn time_after_delay(d: Delay) -> u64 {
    if d.total_nanos() <= MAX_DELTA_NANOS {
        d.total_nanos() as u64
    } else {
        DISPATCH_TIME_FOREVER
    }
}

/// The delay that a finite deadline token stands for; none for "forever" and
/// for tokens beyond the signed 64-bit range.
pub open spec fn delay_of_time(t: u64) -> Option<Delay> {
    if t <= MAX_DELTA_NANOS {
        Some(Delay { secs: t / NSEC_PER_SEC, nanos: (t % NSEC_PER_SEC) as u32 })
    } else {
        None
    }
}

/// Encodes a delay as a native deadline, saturating to "forever" where the
/// total nanoseconds would overflow the signed 64-bit range.
pub fn get_time_after_delay(delay: Delay) -> (r: u64)
    ensures
        r == time_after_delay(delay),
{
    match delay.secs.checked_mul(NSEC_PER_SEC) {
        None => {
            assert(delay.total_nanos() > MAX_DELTA_NANOS);
            DISPATCH_TIME_FOREVER
        },
        Some(whole) => match whole.checked_add(delay.nanos as u64) {
            None => DISPATCH_TIME_FOREVER,
            Some(total) => {
                if total <= MAX_DELTA_NANOS {
                    total
                } else {
                    DISPATCH_TIME_FOREVER
                }
            },
        },
    }
}

/// Decodes a native deadline back into the delay it encodes; `None` for
/// "forever" and for tokens beyond the signed 64-bit range.
pub fn get_delay_of_time(t: u64) -> (r: Option<Delay>)
    ensures
        r == delay_of_time(t),
        r matches Some(d) ==> d.wf(),
{
    if t <= MAX_DELTA_NANOS {
        Some(Delay { secs: t / NSEC_PER_SEC, nanos: (t % NSEC_PER_SEC) as u32 })
    } else {
        None
    }
}

/// Encoding a well-formed delay that fits the signed 64-bit range and decoding
/// the token gives the delay back exactly; a delay beyond that range encodes
/// as "forever".
pub proof fn lemma_time_round_trip(d: Delay)
    requires
        d.wf(),
    ensures
        d.total_nanos() <= MAX_DELTA_NANOS ==> delay_of_time(time_after_delay(d)) == Some(d),
        d.total_nanos() > MAX_DELTA_NANOS ==> time_after_delay(d) == DISPATCH_TIME_FOREVER,
{
    if d.total_nanos() <= MAX_DELTA_NANOS {
        let t = d.total_nanos() as u64;
        let s = d.secs as int;
        let n = d.nanos as int;
        assert(t as int == s * 1_000_000_000 + n);
        assert((s * 1_000_000_000 + n) / 1_000_000_000 == s && (s * 1_000_000_000 + n)
            % 1_000_000_000 == n) by (nonlinear_arith)
            requires
                0 <= n < 1_000_000_000,
                0 <= s,
        ;
    }
}

} // verus!
