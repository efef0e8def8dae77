use rust_web_server::filter::FieldMap;
use rust_web_server::handler::{Failing, Handler, HandlerError, HelloWorld, Request, Responder,
    Step};
use rust_web_server::logging::{LogEvent, Logging};
use rust_web_server::timeout::Timeout;

fn request(pairs: &[(&str, &str)]) -> Request {
    let mut fields = FieldMap::new();
    for (n, v) in pairs {
        fields.insert(n.to_string(), v.to_string());
    }
    Request { method: "GET".to_string(), path: "/".to_string(), fields }
}

/// Drives an in-flight handler with the given clock readings until it yields.
fn drive<H: Handler>(h: &mut H, clock: &[u64]) -> Option<Result<(u16, String), HandlerError>> {
    for now in clock {
        match h.poll(*now) {
            Step::Pending => continue,
            Step::Ready(Ok(resp)) => return Some(Ok((resp.status, resp.body))),
            Step::Ready(Err(e)) => return Some(Err(e)),
        }
    }
    None
}

#[test]
fn hello_world_answers_immediately() {
    let mut h = HelloWorld::new();
    assert!(h.ready());
    h.call(request(&[]), 0);
    let out = drive(&mut h, &[0]).unwrap().unwrap();
    assert_eq!(out.0, 200);
    assert_eq!(out.1, "Hello, welcome to the rust web server");
}

#[test]
fn fast_handler_beats_generous_deadline() {
    // resolves after 0 ms against a 5000 ms budget: the outcome is Ok
    let inner = Responder::new(200, "ok".to_string(), Some(0));
    let mut t = Timeout::new(inner, 5000);
    assert!(t.ready());
    t.call(request(&[]), 0);
    let out = drive(&mut t, &[0]).unwrap().unwrap();
    assert_eq!(out, (200, "ok".to_string()));
}

#[test]
fn handler_wins_even_at_the_deadline_cycle() {
    // resolves exactly when the timer fires: completion takes priority
    let inner = Responder::new(200, "just in time".to_string(), Some(50));
    let mut t = Timeout::new(inner, 50);
    t.call(request(&[]), 0);
    assert!(matches!(t.poll(10), Step::Pending));
    match t.poll(50) {
        Step::Ready(Ok(resp)) => assert_eq!(resp.body, "just in time"),
        _ => panic!("expected the handler outcome, not a timeout"),
    }
}

#[test]
fn stalled_handler_times_out_at_the_deadline() {
    // never resolves against a 50 ms budget: TimedOut at the deadline
    let inner = Responder::new(200, "never".to_string(), None);
    let mut t = Timeout::new(inner, 50);
    t.call(request(&[]), 0);
    assert!(matches!(t.poll(10), Step::Pending));
    assert!(matches!(t.poll(49), Step::Pending));
    match t.poll(50) {
        Step::Ready(Err(HandlerError::TimedOut(e))) => {
            assert_eq!(e.describe(), "timed out");
        },
        _ => panic!("expected TimedOut"),
    }
}

#[test]
fn inner_failure_is_not_a_timeout() {
    let inner = Failing::new("boom".to_string());
    let mut t = Timeout::new(inner, 5000);
    t.call(request(&[]), 0);
    match t.poll(0) {
        Step::Ready(Err(HandlerError::Failed(msg))) => assert_eq!(msg, "boom"),
        _ => panic!("expected the inner failure, unwrapped"),
    }
}

#[test]
fn logging_forwards_success_unchanged() {
    let inner = Responder::new(204, "payload".to_string(), Some(0));
    let mut l = Logging::new(inner, 3);
    l.call(request(&[("Host", "svc")]), 0);
    let out = drive(&mut l, &[5]).unwrap().unwrap();
    assert_eq!(out, (204, "payload".to_string()));
}

#[test]
fn logging_forwards_errors_unchanged() {
    let inner = Failing::new("backend unreachable".to_string());
    let mut l = Logging::new(inner, 4);
    l.call(request(&[]), 0);
    match drive(&mut l, &[1]).unwrap() {
        Err(HandlerError::Failed(msg)) => assert_eq!(msg, "backend unreachable"),
        _ => panic!("expected the inner error, unchanged"),
    }
}

#[test]
fn logging_records_one_event_pair() {
    let inner = Responder::new(200, "ok".to_string(), Some(0));
    let mut l = Logging::new(inner, 9);
    l.call(request(&[("Host", "svc.internal")]), 100);
    assert_eq!(l.events.len(), 1);
    let _ = drive(&mut l, &[140]).unwrap();
    assert_eq!(l.events.len(), 2);
    match &l.events[0] {
        LogEvent::Processing { connection, host, method, route } => {
            assert_eq!(*connection, 9);
            assert_eq!(host, "svc.internal");
            assert_eq!(method, "GET");
            assert_eq!(route, "/");
        },
        _ => panic!("first event must be Processing"),
    }
    match &l.events[1] {
        LogEvent::Completed { connection, status, elapsed_ms, host, .. } => {
            assert_eq!(*connection, 9);
            assert_eq!(*status, 200);
            assert_eq!(*elapsed_ms, 40);
            assert_eq!(host, "svc.internal");
        },
        _ => panic!("second event must be Completed"),
    }
}

#[test]
fn logging_records_error_status_sentinel() {
    let inner = Failing::new("boom".to_string());
    let mut l = Logging::new(inner, 1);
    l.call(request(&[]), 0);
    let _ = drive(&mut l, &[2]).unwrap();
    match &l.events[1] {
        LogEvent::Completed { status, host, .. } => {
            assert_eq!(*status, 500);
            assert_eq!(host, "unknown");
        },
        _ => panic!("second event must be Completed"),
    }
}

#[test]
fn end_to_end_welcome_scenario() {
    // base handler answers immediately; budget 30000 ms; the chain is
    // Logging around Timeout around the base handler
    let base = Responder::new(200, "Welcome to the Rust Web Server".to_string(), Some(0));
    let mut counter = rust_web_server::counter::ConnectionCounter::new(1);
    let id = counter.next_id();
    let mut chain = Logging::new(Timeout::new(base, 30000), id);
    assert!(chain.ready());
    chain.call(request(&[("Host", "localhost:5000")]), 0);
    let out = drive(&mut chain, &[0]).unwrap().unwrap();
    assert_eq!(out, (200, "Welcome to the Rust Web Server".to_string()));

    assert_eq!(chain.events.len(), 2);
    let processing_conn = match &chain.events[0] {
        LogEvent::Processing { connection, .. } => *connection,
        _ => panic!("first event must be Processing"),
    };
    let completed_conn = match &chain.events[1] {
        LogEvent::Completed { connection, .. } => *connection,
        _ => panic!("second event must be Completed"),
    };
    assert_eq!(processing_conn, 1);
    assert_eq!(completed_conn, 1);
}

#[test]
fn timed_out_chain_reports_distinct_error() {
    let base = Responder::new(200, "late".to_string(), Some(10_000));
    let mut chain = Logging::new(Timeout::new(base, 50), 2);
    chain.call(request(&[]), 0);
    match drive(&mut chain, &[10, 20, 50]).unwrap() {
        Err(HandlerError::TimedOut(_)) => {},
        _ => panic!("expected TimedOut through the whole chain"),
    }
    match &chain.events[1] {
        LogEvent::Completed { status, elapsed_ms, .. } => {
            assert_eq!(*status, 500);
            assert_eq!(*elapsed_ms, 50);
        },
        _ => panic!("second event must be Completed"),
    }
}

#[test]
fn deadline_saturates_instead_of_wrapping() {
    let inner = Responder::new(200, "ok".to_string(), None);
    let mut t = Timeout::new(inner, u64::MAX);
    t.call(request(&[]), 10);
    // the deadline saturates at u64::MAX, so the race stays open
    assert!(matches!(t.poll(u64::MAX - 1), Step::Pending));
}
