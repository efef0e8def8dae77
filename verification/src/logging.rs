//! Logging decorator: records request metadata and a start time when a
//! request is accepted, delegates unchanged, and on completion records the
//! status and elapsed time. Purely observational: the outcome it forwards is
//! exactly the inner handler's outcome.

use vstd::prelude::*;

use crate::filter::Filter;
use crate::handler::{Handler, Request, RequestView, Step, StepView};

verus! {

/// `a - b`, saturating at zero.
pub open spec fn sat_sub(a: u64, b: u64) -> u64 {
    if a >= b {
        (a - b) as u64
    } else {
        0
    }
}

/// The status recorded for an outcome: a success carries its response's real
/// status; any error is recorded under the fixed sentinel 500.
pub open spec fn status_of(out: StepView) -> u16 {
    match out {
        StepView::Ready(Ok(resp)) => resp.status,
        _ => 500,
    }
}

/// One structured telemetry record, tagged with the connection it belongs to.
pub enum LogEvent {
    /// Emitted when a request is accepted, before delegation.
    Processing { connection: usize, host: String, method: String, route: String },
    /// Emitted when the delegated unit of work completes.
    Completed {
        connection: usize,
        status: u16,
        elapsed_ms: u64,
        host: String,
        method: String,
        route: String,
    },
}

/// Spec-level image of a telemetry record.
pub enum LogEventView {
    Processing { connection: usize, host: Seq<char>, method: Seq<char>, route: Seq<char> },
    Completed {
        connection: usize,
        status: u16,
        elapsed_ms: u64,
        host: Seq<char>,
        method: Seq<char>,
        route: Seq<char>,
    },
}

impl DeepView for LogEvent {
    type V = LogEventView;

    open spec fn deep_view(&self) -> LogEventView {
        match self {
            LogEvent::Processing { connection, host, method, route } => LogEventView::Processing {
                connection: *connection,
                host: host@,
                method: method@,
                route: route@,
            },
            LogEvent::Completed { connection, status, elapsed_ms, host, method, route } => {
                LogEventView::Completed {
                    connection: *connection,
                    status: *status,
                    elapsed_ms: *elapsed_ms,
                    host: host@,
                    method: method@,
                    route: route@,
                }
            },
        }
    }
}

/// The record that `call` appends for a request.
pub open spec fn processing_event(connection: usize, req: RequestView) -> LogEventView {
    LogEventView::Processing {
        connection,
        host: crate::filter::host_of(req.fields),
        method: req.method,
        route: req.path,
    }
}

/// Decorator that records one `Processing` and one `Completed` event per
/// request, both tagged with the connection number fixed at construction.
/// The events it has recorded so far sit in `events`, oldest first.
pub struct Logging<S> {
    pub connection_number: usize,
    pub inner: S,
    pub host: String,
    pub method: String,
    pub route: String,
    pub start: u64,
    pub events: Vec<LogEvent>,
}

impl<S> Logging<S> {
    /// Wraps `inner`, tagging all telemetry with connection number `num`.
    pub fn new(inner: S, num: usize) -> (r: Self)
        ensures
            r.inner == inner,
            r.connection_number == num,
            r.events.deep_view() =~= Seq::<LogEventView>::empty(),
            r.start == 0,
            r.host@ =~= Seq::<char>::empty(),
            r.method@ =~= Seq::<char>::empty(),
            r.route@ =~= Seq::<char>::empty(),
    {
        Logging {
            connection_number: num,
            inner,
            host: String::new(),
            method: String::new(),
            route: String::new(),
            start: 0,
            events: Vec::new(),
        }
    }
}

impl<S: Handler> Handler for Logging<S> {
    open spec fn inv(&self) -> bool {
        self.inner.inv()
    }

    open spec fn busy(&self) -> bool {
        self.inner.busy()
    }

    open spec fn ready_spec(&self) -> bool {
        self.inner.ready_spec()
    }

    open spec fn poll_out(&self, now: u64) -> StepView {
        self.inner.poll_out(now)
    }

    open spec fn call_rel(&self, post: Self, req: RequestView, now: u64) -> bool {
        &&& self.inner.call_rel(post.inner, req, now)
        &&& post.connection_number == self.connection_number
        &&& post.host@ == crate::filter::host_of(req.fields)
        &&& post.method@ == req.method
        &&& post.route@ == req.path
        &&& post.start == now
        &&& post.events.deep_view() == self.events.deep_view().push(
            processing_event(self.connection_number, req),
        )
    }

    open spec fn poll_rel(&self, post: Self, now: u64) -> bool {
        &&& self.inner.poll_rel(post.inner, now)
        &&& post.connection_number == self.connection_number
        &&& post.host == self.host
        &&& post.method == self.method
        &&& post.route == self.route
        &&& post.start == self.start
        &&& match self.inner.poll_out(now) {
            StepView::Pending => post.events.deep_view() == self.events.deep_view(),
            StepView::Ready(_) => post.events.deep_view() == self.events.deep_view().push(
                LogEventView::Completed {
                    connection: self.connection_number,
                    status: status_of(self.inner.poll_out(now)),
                    elapsed_ms: sat_sub(now, self.start),
                    host: self.host@,
                    method: self.method@,
                    route: self.route@,
                },
            ),
        }
    }

    open spec fn abandon_rel(&self, post: Self) -> bool {
        &&& !post.inner.busy()
        &&& post.connection_number == self.connection_number
        &&& post.events.deep_view() == self.events.deep_view()
    }

    fn ready(&self) -> (r: bool) {
        self.inner.ready()
    }

    fn call(&mut self, req: Request, now: u64) {
        let host = Filter::host(&req.fields);
        let method = req.method.clone();
        let route = req.path.clone();
        let ghost pre_events = self.events.deep_view();
        let ev = LogEvent::Processing {
            connection: self.connection_number,
            host: host.clone(),
            method: method.clone(),
            route: route.clone(),
        };
        let ghost ev_image = ev.deep_view();
        self.events.push(ev);
        proof {
            assert(self.events.deep_view() =~= pre_events.push(ev_image));
        }
        self.host = host;
        self.method = method;
        self.route = route;
        self.start = now;
        self.inner.call(req, now);
    }

    fn poll(&mut self, now: u64) -> (r: Step) {
        match self.inner.poll(now) {
            Step::Pending => Step::Pending,
            Step::Ready(out) => {
                let elapsed = if now >= self.start {
                    now - self.start
                } else {
                    0
                };
                let status = match &out {
                    Ok(resp) => resp.status,
                    Err(_) => 500,
                };
                let ev = LogEvent::Completed {
                    connection: self.connection_number,
                    status,
                    elapsed_ms: elapsed,
                    host: self.host.clone(),
                    method: self.method.clone(),
                    route: self.route.clone(),
                };
                let ghost pre_events = self.events.deep_view();
                let ghost ev_image = ev.deep_view();
                self.events.push(ev);
                proof {
                    assert(self.events.deep_view() =~= pre_events.push(ev_image));
                }
                Step::Ready(out)
            },
        }
    }

    fn abandon(&mut self) {
        self.inner.abandon();
    }
}

/// Law: logging is transparent. The outcome seen through the decorator in any
/// cycle is exactly the inner handler's outcome, success or failure alike.
pub proof fn lemma_logging_transparent<S: Handler>(l: Logging<S>, now: u64)
    ensures
        l.poll_out(now) == l.inner.poll_out(now),
{
}

/// Law: one request yields exactly one `Processing` record at acceptance and
/// exactly one `Completed` record at completion, and both carry the
/// decorator's fixed connection number.
pub proof fn lemma_logging_event_pair<S: Handler>(
    l: Logging<S>,
    mid: Logging<S>,
    post: Logging<S>,
    req: RequestView,
    t_call: u64,
    t_done: u64,
)
    requires
        l.call_rel(mid, req, t_call),
        mid.poll_rel(post, t_done),
        mid.inner.poll_out(t_done) is Ready,
    ensures
        post.events.deep_view() == l.events.deep_view() + seq![
            processing_event(l.connection_number, req),
            LogEventView::Completed {
                connection: l.connection_number,
                status: status_of(mid.inner.poll_out(t_done)),
                elapsed_ms: sat_sub(t_done, t_call),
                host: crate::filter::host_of(req.fields),
                method: req.method,
                route: req.path,
            },
        ],
{
    assert(l.events.deep_view().push(processing_event(l.connection_number, req)).push(
        LogEventView::Completed {
            connection: l.connection_number,
            status: status_of(mid.inner.poll_out(t_done)),
            elapsed_ms: sat_sub(t_done, t_call),
            host: crate::filter::host_of(req.fields),
            method: req.method,
            route: req.path,
        },
    ) =~= l.events.deep_view() + seq![
        processing_event(l.connection_number, req),
        LogEventView::Completed {
            connection: l.connection_number,
            status: status_of(mid.inner.poll_out(t_done)),
            elapsed_ms: sat_sub(t_done, t_call),
            host: crate::filter::host_of(req.fields),
            method: req.method,
            route: req.path,
        },
    ]);
}

} // verus!
