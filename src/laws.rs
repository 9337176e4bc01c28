use vstd::prelude::*;

use crate::frame::request_frame;
use crate::header::byte_tid;
use crate::tracker::{
    after_release, bound_handler, bound_handlers, cancelled, empty_model, first_free, is_bound,
    lemma_first_free, model_wf, registered, tid_in_pool, Registration, TrackerModel, POOL_SIZE,
};

verus! {

/// The tracker after registering each handler of `hs` in turn.
pub open spec fn register_all<H>(m: TrackerModel<H>, hs: Seq<H>) -> TrackerModel<H>
    decreases hs.len(),
{
    if hs.len() == 0 {
        m
    } else {
        registered(register_all(m, hs.drop_last()), hs.last()).0
    }
}

/// The tracker after releasing each identifier of `tids` in turn.
pub open spec fn release_all<H>(m: TrackerModel<H>, tids: Seq<u8>) -> TrackerModel<H>
    decreases tids.len(),
{
    if tids.len() == 0 {
        m
    } else {
        after_release(release_all(m, tids.drop_last()), tids.last())
    }
}

/// A new request takes an identifier that no pending request owns; a
/// response on that identifier reaches the new request's handler, and every
/// other identifier stays with the request that owned it.
pub proof fn lemma_no_cross_delivery<H>(m: TrackerModel<H>, h: H)
    requires
        model_wf(m),
        first_free(m.slots) < m.slots.len(),
    ensures
        registered(m, h).1 is Bound,
        !is_bound(m, registered(m, h).1->Bound_0),
        is_bound(registered(m, h).0, registered(m, h).1->Bound_0),
        bound_handler(registered(m, h).0, registered(m, h).1->Bound_0) == h,
        forall|u: u8|
            tid_in_pool(u) && u != registered(m, h).1->Bound_0 ==> (#[trigger] registered(
                m,
                h,
            ).0.slots[u - 1]) == m.slots[u - 1],
        model_wf(registered(m, h).0),
{
    lemma_first_free(m.slots);
}

/// The frame sent for a request names the request's identifier, so a
/// response that carries the same header byte is routed back to it.
pub proof fn lemma_request_frame_names_its_tid(tid: u8, payload: Seq<u8>)
    requires
        tid_in_pool(tid),
    ensures
        request_frame(tid, payload).len() == payload.len() + 1,
        byte_tid(request_frame(tid, payload)[0]) == Some(tid),
{
}

/// Up to `POOL_SIZE` requests started on an idle tracker are all bound at
/// once, the `i`-th to identifier `i + 1`, so each response on an
/// identifier reaches the request that sent on it.
pub proof fn lemma_concurrent_requests_bound<H>(hs: Seq<H>)
    requires
        hs.len() <= POOL_SIZE,
    ensures
        register_all(empty_model(), hs).waiting.len() == 0,
        register_all(empty_model(), hs).slots.len() == POOL_SIZE,
        forall|i: int|
            0 <= i < hs.len() ==> #[trigger] register_all(empty_model(), hs).slots[i] == Some(
                hs[i],
            ),
        forall|i: int|
            hs.len() <= i < POOL_SIZE ==> #[trigger] register_all(empty_model::<H>(), hs).slots[i]
                is None,
    decreases hs.len(),
{
    if hs.len() > 0 {
        let prev = hs.drop_last();
        lemma_concurrent_requests_bound(prev);
        let m = register_all(empty_model::<H>(), prev);
        lemma_first_free(m.slots);
        assert(m.slots[prev.len() as int] is None);
        if first_free(m.slots) < prev.len() {
            assert(m.slots[first_free(m.slots)] == Some(prev[first_free(m.slots)]));
        }
        assert(first_free(m.slots) == prev.len());
        assert forall|i: int| 0 <= i < prev.len() implies prev[i] == hs[i] by {}
    }
}

/// While requests wait, every release hands the identifier to the request
/// that has waited longest, whatever identifiers are released and in
/// whatever order: after `n` releases the first `n` waiting requests own
/// identifiers, the last of them the one released last, and the rest still
/// wait in the order they came.
pub proof fn lemma_fifo_grants<H>(m: TrackerModel<H>, tids: Seq<u8>)
    requires
        model_wf(m),
        tids.len() <= m.waiting.len(),
        forall|i: int| 0 <= i < tids.len() ==> tid_in_pool(#[trigger] tids[i]),
    ensures
        model_wf(release_all(m, tids)),
        release_all(m, tids).waiting == m.waiting.skip(tids.len() as int),
        tids.len() > 0 ==> is_bound(release_all(m, tids.drop_last()), tids.last()),
        tids.len() > 0 ==> bound_handler(release_all(m, tids), tids.last()) == m.waiting[tids.len()
            - 1],
    decreases tids.len(),
{
    if tids.len() > 0 {
        let prev = tids.drop_last();
        lemma_fifo_grants(m, prev);
        let r = release_all(m, prev);
        assert(r.waiting.len() > 0);
        assert(r.waiting.drop_first() =~= m.waiting.skip(tids.len() as int));
    }
}

proof fn lemma_bound_handlers_contains<H>(s: Seq<Option<H>>, j: int)
    requires
        0 <= j < s.len(),
        s[j] is Some,
    ensures
        bound_handlers(s).contains(s[j]->Some_0),
    decreases s.len(),
{
    let rest = bound_handlers(s.drop_first());
    if j > 0 {
        lemma_bound_handlers_contains(s.drop_first(), j - 1);
        let k = choose|k: int| 0 <= k < rest.len() && rest[k] == s[j]->Some_0;
        if s[0] is Some {
            assert(bound_handlers(s)[k + 1] == s[j]->Some_0);
        } else {
            assert(bound_handlers(s)[k] == s[j]->Some_0);
        }
    } else {
        assert(bound_handlers(s)[0] == s[j]->Some_0);
    }
}

/// Clearing cancels every pending request: each bound handler and each
/// waiting handler is among those handed back for cancellation, and a
/// request started afterwards is bound at once, to identifier 1.
pub proof fn lemma_clear_cancels_every_request<H>(m: TrackerModel<H>, h: H)
    requires
        model_wf(m),
    ensures
        forall|t: u8| is_bound(m, t) ==> cancelled(m).contains(#[trigger] bound_handler(m, t)),
        forall|i: int| 0 <= i < m.waiting.len() ==> cancelled(m).contains(#[trigger] m.waiting[i]),
        model_wf(empty_model::<H>()),
        registered(empty_model::<H>(), h).1 == Registration::Bound(1),
        bound_handler(registered(empty_model::<H>(), h).0, 1) == h,
{
    assert forall|t: u8| is_bound(m, t) implies cancelled(m).contains(
        #[trigger] bound_handler(m, t),
    ) by {
        lemma_bound_handlers_contains(m.slots, t - 1);
        let k = choose|k: int|
            0 <= k < bound_handlers(m.slots).len() && bound_handlers(m.slots)[k]
                == bound_handler(m, t);
        assert(cancelled(m)[k] == bound_handler(m, t));
    }
    assert forall|i: int| 0 <= i < m.waiting.len() implies cancelled(m).contains(
        #[trigger] m.waiting[i],
    ) by {
        assert(cancelled(m)[bound_handlers(m.slots).len() + i] == m.waiting[i]);
    }
    lemma_first_free(empty_model::<H>().slots);
}

} // verus!
