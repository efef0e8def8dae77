//! Timeout decorator: races the wrapped handler's completion against a
//! deadline. The handler's outcome, when available in a cycle, always beats
//! the timer; once the timer wins, the inner unit of work is abandoned and
//! its eventual result is never delivered.

use vstd::prelude::*;

use crate::handler::{ErrorView, Handler, HandlerError, Request, RequestView, Step, StepView,
    TimeoutError};

verus! {

/// `a + b`, saturating at the largest representable value.
pub open spec fn sat_add(a: u64, b: u64) -> u64 {
    if a + b > u64::MAX {
        u64::MAX
    } else {
        (a + b) as u64
    }
}

/// Decorator that gives the wrapped handler a fixed time budget per request.
/// While a request is in flight, `deadline` holds the instant at which the
/// timer fires.
pub struct Timeout<S> {
    pub inner: S,
    pub timeout_ms: u64,
    pub deadline: Option<u64>,
}

impl<S> Timeout<S> {
    /// Wraps `inner` with a time budget of `timeout_ms` milliseconds.
    pub fn new(inner: S, timeout_ms: u64) -> (r: Self)
        ensures
            r == (Timeout { inner, timeout_ms, deadline: None::<u64> }),
    {
        Timeout { inner, timeout_ms, deadline: None }
    }
}

impl<S: Handler> Handler for Timeout<S> {
    open spec fn inv(&self) -> bool {
        &&& self.inner.inv()
        &&& (self.deadline is Some <==> self.inner.busy())
    }

    open spec fn busy(&self) -> bool {
        self.deadline is Some
    }

    open spec fn ready_spec(&self) -> bool {
        self.inner.ready_spec()
    }

    open spec fn poll_out(&self, now: u64) -> StepView {
        match self.inner.poll_out(now) {
            StepView::Ready(out) => StepView::Ready(out),
            StepView::Pending => match self.deadline {
                Some(d) => if now >= d {
                    StepView::Ready(Err(ErrorView::TimedOut))
                } else {
                    StepView::Pending
                },
                None => StepView::Pending,
            },
        }
    }

    open spec fn call_rel(&self, post: Self, req: RequestView, now: u64) -> bool {
        &&& self.inner.call_rel(post.inner, req, now)
        &&& post.timeout_ms == self.timeout_ms
        &&& post.deadline == Some(sat_add(now, self.timeout_ms))
    }

    open spec fn poll_rel(&self, post: Self, now: u64) -> bool {
        &&& post.timeout_ms == self.timeout_ms
        &&& match self.inner.poll_out(now) {
            StepView::Ready(_) => {
                &&& post.deadline is None
                &&& self.inner.poll_rel(post.inner, now)
            },
            StepView::Pending => match self.deadline {
                Some(d) => if now >= d {
                    // the timer won: the inner unit of work was abandoned
                    &&& post.deadline is None
                    &&& !post.inner.busy()
                } else {
                    &&& post.deadline == self.deadline
                    &&& self.inner.poll_rel(post.inner, now)
                },
                None => true,
            },
        }
    }

    open spec fn abandon_rel(&self, post: Self) -> bool {
        &&& post.timeout_ms == self.timeout_ms
        &&& post.deadline is None
        &&& !post.inner.busy()
    }

    fn ready(&self) -> (r: bool) {
        self.inner.ready()
    }

    fn call(&mut self, req: Request, now: u64) {
        self.inner.call(req, now);
        let d = if now <= u64::MAX - self.timeout_ms {
            now + self.timeout_ms
        } else {
            u64::MAX
        };
        self.deadline = Some(d);
    }

    fn poll(&mut self, now: u64) -> (r: Step) {
        match self.inner.poll(now) {
            Step::Ready(out) => {
                // the handler finished: its outcome wins the race outright,
                // whatever the timer would have said in this cycle
                self.deadline = None;
                Step::Ready(out)
            },
            Step::Pending => {
                let d = match self.deadline {
                    Some(d) => d,
                    None => {
                        proof {
                            assert(false);
                        }
                        0
                    },
                };
                if now >= d {
                    self.inner.abandon();
                    self.deadline = None;
                    Step::Ready(Err(HandlerError::TimedOut(TimeoutError {})))
                } else {
                    Step::Pending
                }
            },
        }
    }

    fn abandon(&mut self) {
        self.inner.abandon();
        self.deadline = None;
    }
}

/// Law: a handler outcome available in a cycle always beats the timer, even
/// when the deadline has already passed in the same cycle; no timeout error
/// is produced for work that finished.
pub proof fn lemma_race_prefers_handler<S: Handler>(t: Timeout<S>, now: u64)
    requires
        t.inner.poll_out(now) is Ready,
    ensures
        t.poll_out(now) == t.inner.poll_out(now),
{
}

/// Law: if the handler is still pending in a cycle at or past the deadline,
/// the race ends with a distinct timeout error, and afterwards neither the
/// decorator nor the abandoned inner handler is busy, so a late inner
/// outcome can never be delivered.
pub proof fn lemma_race_timer_fires<S: Handler>(t: Timeout<S>, post: Timeout<S>, now: u64, d: u64)
    requires
        t.deadline == Some(d),
        now >= d,
        t.inner.poll_out(now) is Pending,
    ensures
        t.poll_out(now) == StepView::Ready(Err(ErrorView::TimedOut)),
        t.poll_rel(post, now) ==> !post.busy() && !post.inner.busy(),
{
}

/// Law: before the deadline, a pending handler leaves the race undecided:
/// neither outcome is delivered and the race state is kept.
pub proof fn lemma_race_still_open<S: Handler>(t: Timeout<S>, now: u64, d: u64)
    requires
        t.deadline == Some(d),
        now < d,
        t.inner.poll_out(now) is Pending,
    ensures
        t.poll_out(now) is Pending,
{
}

} // verus!
