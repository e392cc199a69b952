use vstd::prelude::*;
use crate::json::{Json, json_of, parse_json};
use crate::limiter::{LimiterSet, decided, denial};
use crate::quota::{UsageLimit, Window, WindowQuota, window_at, window_quota};
use crate::request::Request;
use crate::response::{JsonResponse, NotAvailable, Reply, classify_json, classifies_as, reply_of};

verus! {

/// Why the HTTP exchange with the service failed.
#[derive(Clone, Debug)]
pub struct TransportError {
    pub message: String,
}

/// The outcome of one request.
#[derive(Debug)]
pub enum RateLimited {
    /// The request went out and the service answered with names.
    Allowed(JsonResponse),
    /// A local quota window refused the request; it may be retried from the
    /// given instant, in nanoseconds since the session began. Nothing was sent.
    Governed(Window, u64),
    /// The service answered with its own refusal.
    Limited(NotAvailable),
    /// The HTTP exchange failed.
    Error(TransportError),
    /// The service answered with a body in none of the known shapes.
    Malformed(String),
}

/// What the request step decides: send the request to this URL, or stop with
/// this outcome.
pub enum Step {
    Send(String),
    Done(RateLimited),
}

/// The step for a request under the windows' joint verdict `verdict`: stop as
/// governed by the denying window with its instant, else send the request
/// with `key`.
pub fn step(verdict: Result<(), (Window, u64)>, req: &Request, key: &str) -> (r: Step)
    ensures
        match verdict {
            Err((w, t)) => r == Step::Done(RateLimited::Governed(w, t)),
            Ok(_) => r matches Step::Send(url) && url@ == req.url_for(key@),
        },
{
    match verdict {
        Err((w, t)) => Step::Done(RateLimited::Governed(w, t)),
        Ok(_) => Step::Send(req.url(key)),
    }
}

/// The outcome `r` follows from the body `body` of a reply that arrived.
pub open spec fn outcome_of_body(body: Seq<char>, r: RateLimited) -> bool {
    match r {
        RateLimited::Allowed(x) => reply_of(json_of(body), Reply::Okay(x)),
        RateLimited::Limited(e) => reply_of(json_of(body), Reply::NotAvailable(e)),
        RateLimited::Malformed(b) => reply_of(json_of(body), Reply::Malformed) && b@ == body,
        _ => false,
    }
}

/// The outcome for a reply body whose document is `j`.
pub fn outcome_of_json(j: &Json, body: String) -> (r: RateLimited)
    ensures
        match r {
            RateLimited::Allowed(x) => classifies_as(*j, Reply::Okay(x)),
            RateLimited::Limited(e) => classifies_as(*j, Reply::NotAvailable(e)),
            RateLimited::Malformed(b) => classifies_as(*j, Reply::Malformed) && b == body,
            _ => false,
        },
{
    match classify_json(j) {
        Reply::Okay(x) => RateLimited::Allowed(x),
        Reply::NotAvailable(e) => RateLimited::Limited(e),
        Reply::Malformed => RateLimited::Malformed(body),
    }
}

/// The outcome of a request that went out: the transport's failure, or what
/// the reply body holds.
pub fn complete(reply: Result<String, TransportError>) -> (r: RateLimited)
    ensures
        match reply {
            Ok(body) => outcome_of_body(body@, r),
            Err(e) => r == RateLimited::Error(e),
        },
{
    match reply {
        Err(e) => RateLimited::Error(e),
        Ok(body) => match parse_json(body.as_str()) {
            Some(j) => outcome_of_json(&j, body),
            None => RateLimited::Malformed(body),
        },
    }
}

/// A user's session: the key, and the quota windows that all its requests
/// share.
pub struct Session {
    pub key: String,
    limiters: LimiterSet,
}

impl Session {
    pub closed spec fn wf(&self) -> bool {
        self.limiters.wf()
    }

    /// The session's key.
    pub closed spec fn key_text(&self) -> Seq<char> {
        self.key@
    }

    /// The quotas of the session's windows.
    pub closed spec fn spec_limits(&self) -> UsageLimit {
        self.limiters.spec_limits()
    }

    /// What the limiter of the window at position `i` (Second, Hour, Day,
    /// Year) enforces.
    pub closed spec fn enforced(&self, i: int) -> WindowQuota {
        self.limiters.enforced(i)
    }

    /// The quotas of the session's windows.
    pub fn usage_limit(&self) -> (r: UsageLimit)
        ensures
            r == self.spec_limits(),
    {
        self.limiters.limits()
    }

    /// A session for `key` with fresh windows for `usage_limit`.
    pub fn new(key: &str, usage_limit: &UsageLimit) -> (r: Session)
        requires
            usage_limit.wf(),
        ensures
            r.key_text() == key@,
            r.spec_limits() == *usage_limit,
            forall|i: int| 0 <= i < 4 ==> #[trigger] r.enforced(i) == window_quota(*usage_limit, window_at(i)),
            r.wf(),
    {
        Session { key: key.to_owned(), limiters: LimiterSet::new(usage_limit) }
    }

    /// A session for `key` with the built-in quotas.
    pub fn new_default(key: &str) -> (r: Session)
        ensures
            r.key_text() == key@,
            r.spec_limits() == UsageLimit::default_limits_spec(),
            forall|i: int|
                0 <= i < 4 ==> #[trigger] r.enforced(i) == window_quota(UsageLimit::default_limits_spec(), window_at(i)),
            r.wf(),
    {
        Session::new(key, &UsageLimit::default_limits())
    }

    /// Nanoseconds since the session began, on the clock of its windows.
    pub fn now(&self) -> u64 {
        self.limiters.now()
    }

    /// Asks every window for one unit and reports the strictest window that
    /// refused, with its earliest-retry instant: the verdict of
    /// `LimiterSet::check`, unchanged. A window that grants spends its unit
    /// even when another window denies (see `LimiterSet::check`).
    pub fn check(&self) -> (r: Result<(), (Window, u64)>)
        requires
            self.wf(),
        ensures
            exists|v: Seq<Option<u64>>| v.len() == 4 && #[trigger] decided(v, denial(r)),
    {
        self.limiters.check()
    }

    /// The local half of a request: the windows' joint verdict, then `step`.
    /// When every window grants, the URL to send, with this session's key;
    /// else `Governed` by the strictest denying window with its instant, and
    /// there is nothing to send. Windows that granted have spent a unit even
    /// then: governor has no check that does not spend.
    pub fn begin(&self, req: &Request) -> (r: Step)
        requires
            self.wf(),
        ensures
            match r {
                Step::Send(url) => url@ == req.url_for(self.key_text()),
                Step::Done(o) => o matches RateLimited::Governed(w, t) && exists|v: Seq<Option<u64>>|
                    v.len() == 4 && #[trigger] decided(v, Some((w, t))),
            },
    {
        let verdict = self.check();
        let r = step(verdict, req, self.key.as_str());
        if let Err((w, t)) = verdict {
            assert(denial(verdict) == Some((w, t)));
        }
        r
    }
}

} // verus!
