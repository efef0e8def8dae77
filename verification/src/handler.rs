//! The handler abstraction: a polymorphic unit of work that reports readiness,
//! accepts a request, and is then polled cooperatively until it yields an
//! outcome. Decorators wrap an inner handler through this interface alone.
//!
//! Suspension is modelled by an explicit clock: the driver passes a monotonic
//! reading `now` (milliseconds) to `call` and to every `poll`, and performs
//! the actual waiting between polls itself.

use vstd::prelude::*;
use vstd::string::StringExecFns;

use crate::filter::{FieldEntryView, FieldMap};

verus! {

/// Spec-level image of a request.
pub struct RequestView {
    pub method: Seq<char>,
    pub path: Seq<char>,
    pub fields: Seq<FieldEntryView>,
}

/// Spec-level image of a response.
pub struct ResponseView {
    pub status: u16,
    pub body: Seq<char>,
}

/// Spec-level image of a handler error.
pub enum ErrorView {
    /// The unit of work itself failed; the message is carried unchanged.
    Failed(Seq<char>),
    /// The deadline elapsed before the unit of work finished.
    TimedOut,
}

/// Spec-level image of one polling step.
pub enum StepView {
    Pending,
    Ready(Result<ResponseView, ErrorView>),
}

/// An inbound request: a method, a path, and a field map.
pub struct Request {
    pub method: String,
    pub path: String,
    pub fields: FieldMap,
}

impl DeepView for Request {
    type V = RequestView;

    open spec fn deep_view(&self) -> RequestView {
        RequestView { method: self.method@, path: self.path@, fields: self.fields.deep_view() }
    }
}

/// An outbound response: a status code and a plain-text body.
pub struct Response {
    pub status: u16,
    pub body: String,
}

impl DeepView for Response {
    type V = ResponseView;

    open spec fn deep_view(&self) -> ResponseView {
        ResponseView { status: self.status, body: self.body@ }
    }
}

/// The deadline elapsed before the wrapped handler completed.
#[derive(Debug)]
pub struct TimeoutError {}

impl TimeoutError {
    /// Human-readable description of the error.
    pub fn describe(&self) -> (r: String)
        ensures
            r@ == "timed out"@,
    {
        String::from_str("timed out")
    }
}

/// Why a unit of work yielded no response. The two causes stay distinct, so a
/// caller can tell a failed handler from an elapsed deadline.
#[derive(Debug)]
pub enum HandlerError {
    /// The handler itself failed.
    Failed(String),
    /// The timeout decorator gave up waiting.
    TimedOut(TimeoutError),
}

impl DeepView for HandlerError {
    type V = ErrorView;

    open spec fn deep_view(&self) -> ErrorView {
        match self {
            HandlerError::Failed(m) => ErrorView::Failed(m@),
            HandlerError::TimedOut(_) => ErrorView::TimedOut,
        }
    }
}

/// What one poll of an in-flight unit of work yields: still pending, or a
/// terminal outcome.
pub enum Step {
    Pending,
    Ready(Result<Response, HandlerError>),
}

impl DeepView for Step {
    type V = StepView;

    open spec fn deep_view(&self) -> StepView {
        match self {
            Step::Pending => StepView::Pending,
            Step::Ready(Ok(resp)) => StepView::Ready(Ok(resp.deep_view())),
            Step::Ready(Err(e)) => StepView::Ready(Err(e.deep_view())),
        }
    }
}

/// A polymorphic unit of work. Exactly one outcome is delivered per accepted
/// request: once `poll` yields `Ready`, the handler is no longer busy and may
/// not be polled again until the next `call`.
pub trait Handler: Sized {
    /// Well-formedness of the handler's internal state.
    spec fn inv(&self) -> bool;

    /// A unit of work is in flight.
    spec fn busy(&self) -> bool;

    /// Readiness/backpressure signal: whether a new unit of work can be
    /// accepted now.
    spec fn ready_spec(&self) -> bool;

    /// The outcome that polling at time `now` yields in the current state.
    spec fn poll_out(&self, now: u64) -> StepView;

    /// How `call` changes the state.
    spec fn call_rel(&self, post: Self, req: RequestView, now: u64) -> bool;

    /// How `poll` changes the state.
    spec fn poll_rel(&self, post: Self, now: u64) -> bool;

    /// How `abandon` changes the state.
    spec fn abandon_rel(&self, post: Self) -> bool;

    /// Reports whether the handler can accept a new unit of work.
    fn ready(&self) -> (r: bool)
        requires
            self.inv(),
        ensures
            r == self.ready_spec(),
    ;

    /// Begins processing a request at time `now`. Calling before readiness is
    /// reported is a caller contract violation, excluded here.
    fn call(&mut self, req: Request, now: u64)
        requires
            old(self).inv(),
            !old(self).busy(),
            old(self).ready_spec(),
        ensures
            final(self).inv(),
            final(self).busy(),
            old(self).call_rel(*final(self), req.deep_view(), now),
    ;

    /// Drives the in-flight unit of work at time `now`. Yields `Ready` at
    /// most once per accepted request: afterwards the handler is idle again.
    fn poll(&mut self, now: u64) -> (r: Step)
        requires
            old(self).inv(),
            old(self).busy(),
        ensures
            final(self).inv(),
            r.deep_view() == old(self).poll_out(now),
            old(self).poll_rel(*final(self), now),
            old(self).poll_out(now) is Pending <==> final(self).busy(),
    ;

    /// Discards any in-flight unit of work; its eventual outcome is never
    /// delivered.
    fn abandon(&mut self)
        requires
            old(self).inv(),
        ensures
            final(self).inv(),
            !final(self).busy(),
            old(self).abandon_rel(*final(self)),
    ;
}

/// Leaf handler that answers every request with a fixed greeting.
pub struct HelloWorld {
    pub in_flight: bool,
}

impl HelloWorld {
    pub fn new() -> (r: HelloWorld)
        ensures
            !r.busy(),
            r.inv(),
    {
        HelloWorld { in_flight: false }
    }
}

impl Handler for HelloWorld {
    open spec fn inv(&self) -> bool {
        true
    }

    open spec fn busy(&self) -> bool {
        self.in_flight
    }

    open spec fn ready_spec(&self) -> bool {
        true
    }

    open spec fn poll_out(&self, now: u64) -> StepView {
        StepView::Ready(
            Ok(ResponseView { status: 200, body: "Hello, welcome to the rust web server"@ }),
        )
    }

    open spec fn call_rel(&self, post: Self, req: RequestView, now: u64) -> bool {
        post.in_flight
    }

    open spec fn poll_rel(&self, post: Self, now: u64) -> bool {
        !post.in_flight
    }

    open spec fn abandon_rel(&self, post: Self) -> bool {
        !post.in_flight
    }

    fn ready(&self) -> (r: bool) {
        true
    }

    fn call(&mut self, req: Request, now: u64) {
        self.in_flight = true;
    }

    fn poll(&mut self, now: u64) -> (r: Step) {
        self.in_flight = false;
        Step::Ready(
            Ok(
                Response {
                    status: 200,
                    body: String::from_str("Hello, welcome to the rust web server"),
                },
            ),
        )
    }

    fn abandon(&mut self) {
        self.in_flight = false;
    }
}

/// Leaf handler with a configured outcome that resolves once the clock
/// reaches `resolve_at`; with `None` it never resolves, standing for a unit
/// of work that stalls forever.
pub struct Responder {
    pub status: u16,
    pub body: String,
    pub resolve_at: Option<u64>,
    pub in_flight: bool,
}

impl Responder {
    pub fn new(status: u16, body: String, resolve_at: Option<u64>) -> (r: Responder)
        ensures
            r == (Responder { status, body, resolve_at, in_flight: false }),
    {
        Responder { status, body, resolve_at, in_flight: false }
    }
}

impl Handler for Responder {
    open spec fn inv(&self) -> bool {
        true
    }

    open spec fn busy(&self) -> bool {
        self.in_flight
    }

    open spec fn ready_spec(&self) -> bool {
        true
    }

    open spec fn poll_out(&self, now: u64) -> StepView {
        match self.resolve_at {
            Some(t) => if now >= t {
                StepView::Ready(Ok(ResponseView { status: self.status, body: self.body@ }))
            } else {
                StepView::Pending
            },
            None => StepView::Pending,
        }
    }

    open spec fn call_rel(&self, post: Self, req: RequestView, now: u64) -> bool {
        post == (Responder { in_flight: true, ..*self })
    }

    open spec fn poll_rel(&self, post: Self, now: u64) -> bool {
        &&& post.status == self.status
        &&& post.body == self.body
        &&& post.resolve_at == self.resolve_at
        &&& post.in_flight == (self.poll_out(now) is Pending)
    }

    open spec fn abandon_rel(&self, post: Self) -> bool {
        post == (Responder { in_flight: false, ..*self })
    }

    fn ready(&self) -> (r: bool) {
        true
    }

    fn call(&mut self, req: Request, now: u64) {
        self.in_flight = true;
    }

    fn poll(&mut self, now: u64) -> (r: Step) {
        match self.resolve_at {
            Some(t) => {
                if now >= t {
                    self.in_flight = false;
                    Step::Ready(Ok(Response { status: self.status, body: self.body.clone() }))
                } else {
                    Step::Pending
                }
            },
            None => Step::Pending,
        }
    }

    fn abandon(&mut self) {
        self.in_flight = false;
    }
}

/// Leaf handler that fails every request with a fixed message at the first
/// poll, standing for a unit of work whose own logic errs.
pub struct Failing {
    pub message: String,
    pub in_flight: bool,
}

impl Failing {
    pub fn new(message: String) -> (r: Failing)
        ensures
            r == (Failing { message, in_flight: false }),
    {
        Failing { message, in_flight: false }
    }
}

impl Handler for Failing {
    open spec fn inv(&self) -> bool {
        true
    }

    open spec fn busy(&self) -> bool {
        self.in_flight
    }

    open spec fn ready_spec(&self) -> bool {
        true
    }

    open spec fn poll_out(&self, now: u64) -> StepView {
        StepView::Ready(Err(ErrorView::Failed(self.message@)))
    }

    open spec fn call_rel(&self, post: Self, req: RequestView, now: u64) -> bool {
        post == (Failing { in_flight: true, ..*self })
    }

    open spec fn poll_rel(&self, post: Self, now: u64) -> bool {
        post == (Failing { in_flight: false, ..*self })
    }

    open spec fn abandon_rel(&self, post: Self) -> bool {
        post == (Failing { in_flight: false, ..*self })
    }

    fn ready(&self) -> (r: bool) {
        true
    }

    fn call(&mut self, req: Request, now: u64) {
        self.in_flight = true;
    }

    fn poll(&mut self, now: u64) -> (r: Step) {
        self.in_flight = false;
        Step::Ready(Err(HandlerError::Failed(self.message.clone())))
    }

    fn abandon(&mut self) {
        self.in_flight = false;
    }
}

} // verus!
