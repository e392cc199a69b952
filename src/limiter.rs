use vstd::prelude::*;
use crate::quota::{UsageLimit, Window, WindowQuota, window_at, window_quota};
use governor::clock::{Clock, QuantaClock, QuantaInstant, Reference};
use governor::middleware::NoOpMiddleware;
use governor::state::{InMemoryState, NotKeyed};
use governor::{Quota, RateLimiter};

verus! {

// governor's quota, clock and instant, carried through as opaque values.
#[verifier::external_type_specification]
#[verifier::external_body]
pub struct ExQuota(Quota);

#[verifier::external_type_specification]
#[verifier::external_body]
pub struct ExQuantaClock(QuantaClock);

#[verifier::external_type_specification]
#[verifier::external_body]
pub struct ExQuantaInstant(QuantaInstant);

/// One window's limiter: governor's in-memory, unkeyed limiter, reading time
/// from the session's clock. It is made by `new_window_limiter` and asked by
/// `check_window`; what it enforces is `limiter_quota`.
#[verifier::external_body]
pub struct WindowLimiter {
    inner: RateLimiter<NotKeyed, InMemoryState, QuantaClock, NoOpMiddleware<QuantaInstant>>,
}

/// Relies on governor's QuantaClock::default: a new monotonic clock.
#[verifier::external_body]
fn new_clock() -> QuantaClock {
    QuantaClock::default()
}

/// Relies on governor's Clock::now for QuantaClock: the current instant.
#[verifier::external_body]
fn clock_now(clock: &QuantaClock) -> QuantaInstant {
    clock.now()
}

/// Relies on governor's Reference::duration_since for QuantaInstant: the
/// nanoseconds from `origin` to `t`, zero if `t` is earlier.
#[verifier::external_body]
fn nanos_since(t: QuantaInstant, origin: QuantaInstant) -> u64 {
    t.duration_since(origin).as_u64()
}

/// The quota that a window's limiter was made to enforce.
pub uninterp spec fn limiter_quota(l: WindowLimiter) -> WindowQuota;

/// Relies on governor's RateLimiter::direct_with_clock: a fresh in-memory
/// limiter, reading time from `clock`, for the governor quota that
/// Quota::with_period and Quota::allow_burst make from `quota` (one cell per
/// `period_nanos` nanoseconds, burst `burst`).
#[verifier::external_body]
fn new_window_limiter(quota: WindowQuota, clock: &QuantaClock) -> (r: WindowLimiter)
    requires
        quota.burst > 0,
        quota.period_nanos > 0,
    ensures
        limiter_quota(r) == quota,
{
    let period = std::time::Duration::from_nanos(quota.period_nanos);
    let burst = std::num::NonZeroU32::new(quota.burst).unwrap();
    let q = Quota::with_period(period).unwrap().allow_burst(burst);
    WindowLimiter { inner: RateLimiter::direct_with_clock(q, clock.clone()) }
}

/// Relies on governor's RateLimiter::check and NotUntil::earliest_possible:
/// either one cell is taken now (`None`), or none is and the instant at which
/// one will be available comes back. The verdict depends on the time.
#[verifier::external_body]
fn check_window(limiter: &WindowLimiter) -> Option<QuantaInstant> {
    match limiter.inner.check() {
        Ok(_) => None,
        Err(not_until) => Some(not_until.earliest_possible()),
    }
}

/// Window `i` denies: it gave an earliest-retry instant.
pub open spec fn denies(v: Seq<Option<u64>>, i: int) -> bool {
    0 <= i < v.len() && v[i] is Some
}

/// No window denies.
pub open spec fn all_grant(v: Seq<Option<u64>>) -> bool {
    forall|j: int| 0 <= j < v.len() ==> #[trigger] v[j] is None
}

/// Window `i` governs the verdicts `v` (one earliest-retry instant per denying
/// window): it denies, no denying window asks for a later instant, and every
/// denying window before it asks for an earlier one.
pub open spec fn is_strictest(v: Seq<Option<u64>>, i: int) -> bool {
    &&& denies(v, i)
    &&& forall|j: int| #[trigger] denies(v, j) ==> v[j]->0 <= v[i]->0
    &&& forall|j: int| 0 <= j < i && #[trigger] denies(v, j) ==> v[j]->0 < v[i]->0
}

/// The set's denial `d` follows from the windows' verdicts `v`: none when no
/// window denies, else the strictest window and its instant.
pub open spec fn decided(v: Seq<Option<u64>>, d: Option<(Window, u64)>) -> bool {
    match d {
        None => all_grant(v),
        Some((w, t)) => exists|i: int| #[trigger] is_strictest(v, i) && w == window_at(i) && t == v[i]->0,
    }
}

/// The denial that a check reports.
pub open spec fn denial(r: Result<(), (Window, u64)>) -> Option<(Window, u64)> {
    match r {
        Ok(_) => None,
        Err(p) => Some(p),
    }
}

/// Picks the window whose earliest-retry instant is the latest, the first such
/// window on a tie; `None` when no window denies.
pub fn strictest(verdicts: &Vec<Option<u64>>) -> (r: Option<usize>)
    ensures
        r is None <==> all_grant(verdicts@),
        r matches Some(i) ==> is_strictest(verdicts@, i as int),
{
    let mut best: Option<usize> = None;
    let mut i: usize = 0;
    while i < verdicts.len()
        invariant
            i <= verdicts@.len(),
            best is None <==> forall|j: int| 0 <= j < i ==> #[trigger] verdicts@[j] is None,
            best matches Some(b) ==> {
                &&& b < i
                &&& denies(verdicts@, b as int)
                &&& forall|j: int| 0 <= j < i && #[trigger] denies(verdicts@, j) ==> verdicts@[j]->0 <= verdicts@[b as int]->0
                &&& forall|j: int| 0 <= j < b && #[trigger] denies(verdicts@, j) ==> verdicts@[j]->0 < verdicts@[b as int]->0
            },
        decreases verdicts@.len() - i,
    {
        if let Some(t) = verdicts[i] {
            match best {
                None => {
                    best = Some(i);
                },
                Some(b) => {
                    if let Some(tb) = verdicts[b] {
                        if t > tb {
                            best = Some(i);
                        }
                    }
                },
            }
        }
        i = i + 1;
    }
    best
}

/// The joint verdict of the four windows, Second, Hour, Day and Year:
/// granted when none denies, else the strictest denying window with its
/// earliest-retry instant.
pub fn decide(verdicts: &Vec<Option<u64>>) -> (r: Result<(), (Window, u64)>)
    requires
        verdicts@.len() == 4,
    ensures
        decided(verdicts@, denial(r)),
{
    match strictest(verdicts) {
        None => Ok(()),
        Some(i) => {
            let t = verdicts[i].unwrap();
            let r = Err((Window::at(i), t));
            assert(is_strictest(verdicts@, i as int));
            r
        },
    }
}

/// When some window denies, exactly one window governs, and its instant is
/// late enough for every denying window to grant again: the reported wait
/// clears every window, not only one.
pub proof fn lemma_strictest_governs(v: Seq<Option<u64>>, i: int, k: int)
    requires
        is_strictest(v, i),
        is_strictest(v, k),
    ensures
        i == k,
        forall|j: int| #[trigger] denies(v, j) ==> v[j]->0 <= v[i]->0,
{
    if i < k {
        assert(denies(v, i));
    } else if k < i {
        assert(denies(v, k));
    }
}

/// The four windows' limiters, on one clock, with the instant the set was
/// made as the origin of reported instants.
pub struct LimiterSet {
    limits: UsageLimit,
    clock: QuantaClock,
    origin: QuantaInstant,
    limiters: Vec<WindowLimiter>,
}

impl LimiterSet {
    /// One limiter per window, in the order Second, Hour, Day, Year.
    pub closed spec fn wf(&self) -> bool {
        self.limiters@.len() == 4
    }

    /// The quotas the limiters were made for.
    pub closed spec fn spec_limits(&self) -> UsageLimit {
        self.limits
    }

    /// What the limiter of the window at position `i` enforces.
    pub closed spec fn enforced(&self, i: int) -> WindowQuota {
        limiter_quota(self.limiters@[i])
    }

    /// The quotas the limiters were made for.
    pub fn limits(&self) -> (r: UsageLimit)
        ensures
            r == self.spec_limits(),
    {
        self.limits
    }

    /// Fresh limiters for `limits`; each window's burst equals its quota.
    pub fn new(limits: &UsageLimit) -> (r: LimiterSet)
        requires
            limits.wf(),
        ensures
            r.wf(),
            r.spec_limits() == *limits,
            forall|i: int| 0 <= i < 4 ==> #[trigger] r.enforced(i) == window_quota(*limits, window_at(i)),
    {
        let clock = new_clock();
        let origin = clock_now(&clock);
        let mut limiters: Vec<WindowLimiter> = Vec::new();
        let mut i: usize = 0;
        while i < 4
            invariant
                limits.wf(),
                i <= 4,
                limiters@.len() == i,
                forall|k: int| 0 <= k < i ==> limiter_quota(#[trigger] limiters@[k]) == window_quota(*limits, window_at(k)),
            decreases 4 - i,
        {
            let quota = limits.window_quota(Window::at(i));
            limiters.push(new_window_limiter(quota, &clock));
            i = i + 1;
        }
        LimiterSet { limits: *limits, clock, origin, limiters }
    }

    /// Nanoseconds since the set was made, on the clock of its limiters.
    pub fn now(&self) -> u64 {
        nanos_since(clock_now(&self.clock), self.origin)
    }

    /// Asks every window for one unit, in the order Second, Hour, Day, Year,
    /// and decides with `decide`; instants are in nanoseconds since the set
    /// was made. A window that grants takes its unit even when another window
    /// denies: governor has no way to test a limiter without taking the unit
    /// it grants, and each window is atomic on its own.
    pub fn check(&self) -> (r: Result<(), (Window, u64)>)
        requires
            self.wf(),
        ensures
            exists|v: Seq<Option<u64>>| v.len() == 4 && #[trigger] decided(v, denial(r)),
    {
        let mut verdicts: Vec<Option<u64>> = Vec::new();
        let mut i: usize = 0;
        while i < 4
            invariant
                self.wf(),
                i <= 4,
                verdicts@.len() == i,
            decreases 4 - i,
        {
            let verdict = match check_window(&self.limiters[i]) {
                None => None,
                Some(t) => Some(nanos_since(t, self.origin)),
            };
            verdicts.push(verdict);
            i = i + 1;
        }
        let r = decide(&verdicts);
        assert(decided(verdicts@, denial(r)));
        r
    }
}

} // verus!
