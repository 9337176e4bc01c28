use vstd::prelude::*;

use crate::error::FrameError;
use crate::frame::{outbound_frame, request_frame, SpinelFrameRef};
use crate::header::byte_tid;
use crate::tracker::{
    bound_handler, cancelled, empty_model, is_bound, registered, after_release, Registration,
    Released, RequestTracker, TrackerModel,
};

verus! {

/// What a caller of `send_request` does next.
#[derive(Debug, PartialEq, Eq)]
pub enum SendStep {
    /// Write `frame` to the transport; the request owns `tid`.
    Transmit { tid: u8, frame: Vec<u8> },
    /// Every identifier is taken: wait until a release grants one, then
    /// write `outbound_frame` of it.
    Queued,
}

/// What an inbound frame turned out to be.
pub enum Inbound<H> {
    /// A frame without a transaction identifier; no handler was touched.
    Unsolicited,
    /// A response: the handler that owned `tid`, to be invoked once with
    /// the frame.
    Response { tid: u8, released: Released<H> },
}

/// Correlates outbound requests with inbound responses through a bounded
/// pool of transaction identifiers. `H` is the per-request handler that a
/// response, or a cancellation, is handed to.
#[verifier::reject_recursive_types(H)]
pub struct FrameHandler<H> {
    requests: RequestTracker<H>,
}

impl<H> View for FrameHandler<H> {
    type V = TrackerModel<H>;

    closed spec fn view(&self) -> TrackerModel<H> {
        self.requests@
    }
}

impl<H> FrameHandler<H> {
    pub open spec fn wf(&self) -> bool {
        crate::tracker::model_wf(self@)
    }

    /// A frame handler with no request in flight.
    pub fn new() -> (r: Self)
        ensures
            r.wf(),
            r@ == empty_model::<H>(),
    {
        FrameHandler { requests: RequestTracker::new() }
    }

    /// Cancels every request: returns each handler, bound ones by
    /// identifier then waiting ones oldest first, to be invoked with a
    /// cancellation. Afterwards every identifier is free.
    pub fn clear(&mut self) -> (r: Vec<H>)
        requires
            old(self).wf(),
        ensures
            final(self).wf(),
            final(self)@ == empty_model::<H>(),
            r@ == cancelled(old(self)@),
    {
        self.requests.clear()
    }

    /// Starts a request: binds `handler` to a transaction identifier and
    /// builds the frame to send, or queues the request when none is free.
    pub fn send_request(&mut self, handler: H, payload: &[u8]) -> (r: SendStep)
        requires
            old(self).wf(),
        ensures
            final(self).wf(),
            final(self)@ == registered(old(self)@, handler).0,
            match registered(old(self)@, handler).1 {
                Registration::Bound(t) => r matches SendStep::Transmit { tid, frame } && tid == t
                    && frame@ == request_frame(t, payload@),
                Registration::Queued => r == SendStep::Queued,
            },
    {
        match self.requests.register(handler) {
            Registration::Bound(tid) => {
                proof {
                    crate::tracker::lemma_first_free(old(self)@.slots);
                }
                // A bound identifier is always in range, so this never fails.
                match outbound_frame(tid, payload) {
                    Ok(frame) => SendStep::Transmit { tid, frame },
                    Err(_) => SendStep::Queued,
                }
            },
            Registration::Queued => SendStep::Queued,
        }
    }

    /// Routes an inbound frame: a frame without a transaction identifier is
    /// unsolicited; otherwise the handler owning its identifier is taken
    /// out, and its identifier goes to the longest-waiting request.
    pub fn handle_inbound_frame(&mut self, frame: &SpinelFrameRef<'_>) -> (r: Result<
        Inbound<H>,
        FrameError,
    >)
        requires
            old(self).wf(),
        ensures
            final(self).wf(),
            match byte_tid(frame.header@) {
                None => r matches Ok(Inbound::Unsolicited) && final(self)@ == old(self)@,
                Some(t) => if is_bound(old(self)@, t) {
                    &&& r matches Ok(Inbound::Response { tid, released })
                    &&& tid == t
                    &&& released.handler == bound_handler(old(self)@, t)
                    &&& released.granted == (old(self)@.waiting.len() > 0)
                    &&& final(self)@ == after_release(old(self)@, t)
                } else {
                    &&& r == Err::<Inbound<H>, FrameError>(FrameError::UnmatchedTransaction(t))
                    &&& final(self)@ == old(self)@
                },
            },
    {
        match frame.header.tid() {
            None => Ok(Inbound::Unsolicited),
            Some(tid) => match self.requests.dispatch(tid) {
                Ok(released) => Ok(Inbound::Response { tid, released }),
                Err(e) => Err(e),
            },
        }
    }

    /// Withdraws the request that owns `tid` (its frame could not be
    /// written, or nobody waits for it any more), as a response would.
    pub fn cancel_request(&mut self, tid: u8) -> (r: Result<Released<H>, FrameError>)
        requires
            old(self).wf(),
        ensures
            final(self).wf(),
            is_bound(old(self)@, tid) ==> {
                &&& r is Ok
                &&& r->Ok_0.handler == bound_handler(old(self)@, tid)
                &&& r->Ok_0.granted == (old(self)@.waiting.len() > 0)
                &&& final(self)@ == after_release(old(self)@, tid)
            },
            !is_bound(old(self)@, tid) ==> {
                &&& r is Err
                &&& r->Err_0 == FrameError::UnmatchedTransaction(tid)
                &&& final(self)@ == old(self)@
            },
    {
        self.requests.dispatch(tid)
    }

    /// Whether a request owns `tid`.
    pub fn is_pending(&self, tid: u8) -> (r: bool)
        requires
            self.wf(),
        ensures
            r == is_bound(self@, tid),
    {
        self.requests.is_pending(tid)
    }

    /// The handler of the request that owns `tid`, if any.
    pub fn pending(&self, tid: u8) -> (r: Option<&H>)
        requires
            self.wf(),
        ensures
            is_bound(self@, tid) ==> r == Some(&bound_handler(self@, tid)),
            !is_bound(self@, tid) ==> r is None,
    {
        self.requests.pending(tid)
    }

    /// How many requests wait for an identifier.
    pub fn waiting_len(&self) -> (r: usize)
        ensures
            r == self@.waiting.len(),
    {
        self.requests.waiting_len()
    }
}

} // verus!
