use behindthename::limiter::{decide, strictest};
use behindthename::quota::{QuotaError, UsageLimit, Window, WindowQuota};
use behindthename::request::{lookup, Request};
use behindthename::response::JsonResponse;
use behindthename::session::{complete, step, RateLimited, Session, Step, TransportError};

const NAMES: &str = r#"{"names":["Giovanni","Rossi"]}"#;

/// Runs one request through `session`, handing the URL to `transport` when
/// the windows grant it.
fn dispatch(
    session: &Session,
    req: &Request,
    transport: &mut dyn FnMut(&str) -> Result<String, TransportError>,
) -> RateLimited {
    match session.begin(req) {
        Step::Send(url) => complete(transport(&url)),
        Step::Done(outcome) => outcome,
    }
}

fn limits(per_second: u32, per_hour: u32, per_day: u64, per_year: u64) -> UsageLimit {
    UsageLimit::new(per_second, per_hour, per_day, per_year).unwrap()
}

/// Dispatches `n + 1` requests back to back and checks that the first `n` are
/// allowed and the last is governed by `window`.
fn exhaust(limit: UsageLimit, n: usize, window: Window) {
    let session = Session::new("k", &limit);
    let mut calls = 0usize;
    let mut transport = |_: &str| -> Result<String, TransportError> {
        calls += 1;
        Ok(NAMES.to_string())
    };
    for i in 0..n {
        match dispatch(&session, &lookup("Jordan"), &mut transport) {
            RateLimited::Allowed(_) => (),
            other => panic!("request {} was not allowed: {:?}", i, other),
        }
    }
    match dispatch(&session, &lookup("Jordan"), &mut transport) {
        RateLimited::Governed(w, _) => assert_eq!(w, window),
        other => panic!("last request was not governed: {:?}", other),
    }
    assert_eq!(calls, n);
}

#[test]
fn test_construct_default_session() {
    let _ = Session::new_default("some_key");
}

#[test]
fn test_construct_custom_session() {
    let usage_limit = UsageLimit::new(4, 24, 90, 1000).unwrap();
    let _ = Session::new("some_key", &usage_limit);
}

#[test]
fn session_keeps_its_key() {
    let session = Session::new_default("secret");
    assert_eq!(session.key, "secret");
}

#[test]
fn burst_of_the_second_window() {
    exhaust(limits(3, 400, 4000, 400000), 3, Window::Second);
}

#[test]
fn burst_of_the_hour_window() {
    exhaust(limits(100, 2, 4000, 400000), 2, Window::Hour);
}

#[test]
fn burst_of_the_day_window() {
    exhaust(limits(100, 400, 3, 400000), 3, Window::Day);
}

#[test]
fn burst_of_the_year_window() {
    exhaust(limits(100, 400, 4000, 4), 4, Window::Year);
}

#[test]
fn second_window_governs_when_only_it_is_exhausted() {
    exhaust(UsageLimit::default_limits(), 2, Window::Second);
}

#[test]
fn two_per_second_gives_allowed_allowed_governed() {
    let session = Session::new("k", &limits(2, 400, 4000, 400000));
    let mut transport = |_: &str| -> Result<String, TransportError> { Ok(NAMES.to_string()) };
    let req = lookup("Jordan");
    assert!(matches!(dispatch(&session, &req, &mut transport), RateLimited::Allowed(_)));
    assert!(matches!(dispatch(&session, &req, &mut transport), RateLimited::Allowed(_)));
    match dispatch(&session, &req, &mut transport) {
        RateLimited::Governed(w, t) => {
            assert_eq!(w.name(), "Second");
            assert!(t > session.now());
        }
        other => panic!("third request was not governed: {:?}", other),
    }
}

#[test]
fn governed_requests_make_no_call() {
    let session = Session::new("k", &limits(1, 400, 4000, 400000));
    let mut calls = 0usize;
    let mut transport = |_: &str| -> Result<String, TransportError> {
        calls += 1;
        Ok(NAMES.to_string())
    };
    let req = lookup("Jordan");
    assert!(matches!(dispatch(&session, &req, &mut transport), RateLimited::Allowed(_)));
    for _ in 0..5 {
        assert!(matches!(dispatch(&session, &req, &mut transport), RateLimited::Governed(..)));
    }
    assert_eq!(calls, 1);
}

#[test]
fn repeated_governed_checks_keep_the_retry_instant() {
    let session = Session::new("k", &limits(1, 400, 4000, 400000));
    assert!(session.check().is_ok());
    let first = session.check().unwrap_err();
    let second = session.check().unwrap_err();
    let third = session.check().unwrap_err();
    assert_eq!(first, second);
    assert_eq!(second, third);
    assert_eq!(first.0, Window::Second);
}

#[test]
fn service_refusal_is_reported_verbatim() {
    let session = Session::new_default("k");
    let mut transport = |_: &str| -> Result<String, TransportError> {
        Ok(r#"{"error_code":2,"error":"service not available"}"#.to_string())
    };
    match dispatch(&session, &lookup("Jordan"), &mut transport) {
        RateLimited::Limited(e) => {
            assert_eq!((e.error_code, e.error), (2usize, "service not available".to_string()))
        }
        other => panic!("not a refusal: {:?}", other),
    }
}

#[test]
fn transport_failure_is_reported_and_counts_against_quota() {
    let session = Session::new("k", &limits(1, 400, 4000, 400000));
    let mut transport = |_: &str| -> Result<String, TransportError> {
        Err(TransportError { message: "connection refused".to_string() })
    };
    let req = lookup("Jordan");
    match dispatch(&session, &req, &mut transport) {
        RateLimited::Error(e) => assert_eq!(e.message, "connection refused"),
        other => panic!("not a transport error: {:?}", other),
    }
    assert!(matches!(dispatch(&session, &req, &mut transport), RateLimited::Governed(..)));
}

#[test]
fn transport_gets_the_url_with_the_session_key() {
    let session = Session::new_default("asdf");
    let mut seen = String::new();
    let mut transport = |url: &str| -> Result<String, TransportError> {
        seen = url.to_string();
        Ok("[]".to_string())
    };
    match dispatch(&session, &lookup("Angus"), &mut transport) {
        RateLimited::Allowed(JsonResponse::NameDetails(d)) => assert!(d.0.is_empty()),
        other => panic!("not name details: {:?}", other),
    }
    assert_eq!(seen, "https://www.behindthename.com/api/lookup.json?key=asdf&name=Angus");
}

#[test]
fn complete_keeps_a_malformed_body() {
    match complete(Ok("<html>busy</html>".to_string())) {
        RateLimited::Malformed(b) => assert_eq!(b, "<html>busy</html>"),
        other => panic!("not malformed: {:?}", other),
    }
}

#[test]
fn strictest_window_is_the_latest_and_first_on_ties() {
    assert_eq!(strictest(&vec![None, None, None, None]), None);
    assert_eq!(strictest(&vec![Some(5), None, None, None]), Some(0));
    assert_eq!(strictest(&vec![Some(5), Some(9), None, Some(7)]), Some(1));
    assert_eq!(strictest(&vec![None, Some(9), Some(9), Some(3)]), Some(1));
    assert_eq!(strictest(&vec![None, None, None, Some(1)]), Some(3));
}

#[test]
fn quotas_are_checked() {
    assert_eq!(UsageLimit::new(0, 1, 1, 1), Err(QuotaError::Zero(Window::Second)));
    assert_eq!(UsageLimit::new(1000000001, 1, 1, 1), Err(QuotaError::TooLarge(Window::Second)));
    assert!(UsageLimit::new(1000000000, 1, 1, 1).is_ok());
    assert_eq!(UsageLimit::new(1, 0, 1, 1), Err(QuotaError::Zero(Window::Hour)));
    assert_eq!(UsageLimit::new(1, 1, 0, 1), Err(QuotaError::Zero(Window::Day)));
    assert_eq!(UsageLimit::new(1, 1, 86401, 1), Err(QuotaError::TooLarge(Window::Day)));
    assert_eq!(UsageLimit::new(1, 1, 1, 0), Err(QuotaError::Zero(Window::Year)));
    assert_eq!(UsageLimit::new(1, 1, 1, 31536001), Err(QuotaError::TooLarge(Window::Year)));
    let l = UsageLimit::new(1, 1, 86400, 31536000).unwrap();
    assert_eq!(l.day_period_secs(), 1);
    assert_eq!(l.year_period_secs(), 1);
    let d = UsageLimit::default_limits();
    assert_eq!((d.per_second, d.per_hour, d.per_day, d.per_year), (2, 400, 4000, 400000));
    assert_eq!(d.day_period_secs(), 21);
    assert_eq!(d.year_period_secs(), 78);
}

#[test]
fn window_names_and_order() {
    assert_eq!(Window::at(0).name(), "Second");
    assert_eq!(Window::at(1).name(), "Hour");
    assert_eq!(Window::at(2).name(), "Day");
    assert_eq!(Window::at(3).name(), "Year");
}

#[test]
fn each_window_enforces_its_own_quota() {
    let d = UsageLimit::default_limits();
    assert_eq!(d.window_quota(Window::Second), WindowQuota { burst: 2, period_nanos: 500000000 });
    assert_eq!(d.window_quota(Window::Hour), WindowQuota { burst: 400, period_nanos: 9000000000 });
    assert_eq!(d.window_quota(Window::Day), WindowQuota { burst: 4000, period_nanos: 21000000000 });
    assert_eq!(d.window_quota(Window::Year), WindowQuota { burst: 400000, period_nanos: 78000000000 });
    let l = limits(3, 7, 86400, 31536000);
    assert_eq!(l.window_quota(Window::Second), WindowQuota { burst: 3, period_nanos: 333333333 });
    assert_eq!(l.window_quota(Window::Hour), WindowQuota { burst: 7, period_nanos: 514285714285 });
    assert_eq!(l.window_quota(Window::Day), WindowQuota { burst: 86400, period_nanos: 1000000000 });
    assert_eq!(l.window_quota(Window::Year), WindowQuota { burst: 31536000, period_nanos: 1000000000 });
    assert_eq!(Session::new("k", &l).usage_limit(), l);
}

#[test]
fn decide_reports_the_strictest_window() {
    assert_eq!(decide(&vec![None, None, None, None]), Ok(()));
    assert_eq!(decide(&vec![Some(4), Some(8), None, None]), Err((Window::Hour, 8)));
    assert_eq!(decide(&vec![None, None, Some(6), Some(6)]), Err((Window::Day, 6)));
    assert_eq!(decide(&vec![Some(1), None, None, Some(2)]), Err((Window::Year, 2)));
}

#[test]
fn step_sends_only_when_granted() {
    let req = lookup("Angus");
    match step(Ok(()), &req, "asdf") {
        Step::Send(url) => {
            assert_eq!(url, "https://www.behindthename.com/api/lookup.json?key=asdf&name=Angus")
        }
        Step::Done(o) => panic!("{:?}", o),
    }
    match step(Err((Window::Day, 42)), &req, "asdf") {
        Step::Done(RateLimited::Governed(w, t)) => assert_eq!((w, t), (Window::Day, 42)),
        Step::Done(o) => panic!("{:?}", o),
        Step::Send(url) => panic!("{}", url),
    }
}
