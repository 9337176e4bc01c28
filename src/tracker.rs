use vstd::prelude::*;

use crate::error::FrameError;

verus! {

/// Number of transaction identifiers: the identifiers are `1..=POOL_SIZE`.
pub const POOL_SIZE: usize = 15;

/// What a tracker holds: the handler bound to each identifier (index
/// `tid - 1`) and the handlers still waiting for one, oldest first.
pub struct TrackerModel<H> {
    pub slots: Seq<Option<H>>,
    pub waiting: Seq<H>,
}

/// Whether `tid` names an identifier of the pool.
pub open spec fn tid_in_pool(tid: u8) -> bool {
    1 <= tid && tid <= POOL_SIZE
}

/// Whether a pending handler owns `tid`.
pub open spec fn is_bound<H>(m: TrackerModel<H>, tid: u8) -> bool {
    tid_in_pool(tid) && m.slots[tid - 1] is Some
}

/// The handler that owns `tid`.
pub open spec fn bound_handler<H>(m: TrackerModel<H>, tid: u8) -> H {
    m.slots[tid - 1]->Some_0
}

/// The pool has exactly one slot per identifier, and a handler waits only
/// while every identifier is taken.
pub open spec fn model_wf<H>(m: TrackerModel<H>) -> bool {
    &&& m.slots.len() == POOL_SIZE
    &&& m.waiting.len() > 0 ==> forall|j: int| 0 <= j < m.slots.len() ==> m.slots[j] is Some
}

/// The index of the first free slot at or after `i`, or the length.
pub open spec fn first_free_from<H>(s: Seq<Option<H>>, i: int) -> int
    decreases s.len() - i,
{
    if i < 0 || i >= s.len() {
        s.len() as int
    } else if s[i] is None {
        i
    } else {
        first_free_from(s, i + 1)
    }
}

pub open spec fn first_free<H>(s: Seq<Option<H>>) -> int {
    first_free_from(s, 0)
}

/// A tracker with every identifier free and nobody waiting.
pub open spec fn empty_model<H>() -> TrackerModel<H> {
    TrackerModel { slots: Seq::new(POOL_SIZE as nat, |j: int| None), waiting: Seq::empty() }
}

/// Outcome of asking for an identifier.
#[derive(Debug, Clone, Copy, PartialEq, Eq, Structural)]
pub enum Registration {
    /// The handler now owns this identifier.
    Bound(u8),
    /// Every identifier is taken; the handler waits in line.
    Queued,
}

/// Registering `h`: it takes the lowest free identifier, or else waits
/// behind every handler already waiting.
pub open spec fn registered<H>(m: TrackerModel<H>, h: H) -> (TrackerModel<H>, Registration) {
    let i = first_free(m.slots);
    if i < m.slots.len() {
        (
            TrackerModel { slots: m.slots.update(i, Some(h)), waiting: m.waiting },
            Registration::Bound((i + 1) as u8),
        )
    } else {
        (TrackerModel { slots: m.slots, waiting: m.waiting.push(h) }, Registration::Queued)
    }
}

/// Releasing a bound `tid`: the identifier goes to the handler that has
/// waited longest, or becomes free when none waits.
pub open spec fn after_release<H>(m: TrackerModel<H>, tid: u8) -> TrackerModel<H> {
    if m.waiting.len() > 0 {
        TrackerModel {
            slots: m.slots.update(tid - 1, Some(m.waiting[0])),
            waiting: m.waiting.drop_first(),
        }
    } else {
        TrackerModel { slots: m.slots.update(tid - 1, None), waiting: m.waiting }
    }
}

/// The bound handlers of `s`, in identifier order.
pub open spec fn bound_handlers<H>(s: Seq<Option<H>>) -> Seq<H>
    decreases s.len(),
{
    if s.len() == 0 {
        Seq::empty()
    } else {
        let rest = bound_handlers(s.drop_first());
        match s[0] {
            Some(h) => seq![h] + rest,
            None => rest,
        }
    }
}

/// What `clear` cancels: the bound handlers by identifier, then the
/// waiting ones, oldest first.
pub open spec fn cancelled<H>(m: TrackerModel<H>) -> Seq<H> {
    bound_handlers(m.slots) + m.waiting
}

/// A handler taken out of the tracker, with whether its identifier went on
/// to the handler that had waited longest.
pub struct Released<H> {
    pub handler: H,
    pub granted: bool,
}

/// The bounded pool of transaction identifiers and the handler bound to each.
#[verifier::reject_recursive_types(H)]
pub struct RequestTracker<H> {
    slots: Vec<Option<H>>,
    waiting: Vec<H>,
}

impl<H> View for RequestTracker<H> {
    type V = TrackerModel<H>;

    closed spec fn view(&self) -> TrackerModel<H> {
        TrackerModel { slots: self.slots@, waiting: self.waiting@ }
    }
}

proof fn lemma_first_free_from<H>(s: Seq<Option<H>>, i: int)
    requires
        0 <= i <= s.len(),
    ensures
        i <= first_free_from(s, i) <= s.len(),
        forall|j: int| i <= j < first_free_from(s, i) ==> s[j] is Some,
        first_free_from(s, i) < s.len() ==> s[first_free_from(s, i)] is None,
    decreases s.len() - i,
{
    if i < s.len() && s[i] is Some {
        lemma_first_free_from(s, i + 1);
    }
}

/// The first free slot is free and every slot before it is bound.
pub proof fn lemma_first_free<H>(s: Seq<Option<H>>)
    ensures
        0 <= first_free(s) <= s.len(),
        forall|j: int| 0 <= j < first_free(s) ==> s[j] is Some,
        first_free(s) < s.len() ==> s[first_free(s)] is None,
{
    lemma_first_free_from(s, 0);
}

fn free_slots<H>() -> (r: Vec<Option<H>>)
    ensures
        r@ == empty_model::<H>().slots,
{
    let mut r: Vec<Option<H>> = Vec::new();
    while r.len() < POOL_SIZE
        invariant
            r@.len() <= POOL_SIZE,
            forall|j: int| 0 <= j < r@.len() ==> r@[j] is None,
        decreases POOL_SIZE - r@.len(),
    {
        r.push(None);
    }
    assert(r@ =~= empty_model::<H>().slots);
    r
}

impl<H> RequestTracker<H> {
    pub open spec fn wf(&self) -> bool {
        model_wf(self@)
    }

    /// A tracker with every identifier free.
    pub fn new() -> (r: Self)
        ensures
            r.wf(),
            r@ == empty_model::<H>(),
    {
        RequestTracker { slots: free_slots(), waiting: Vec::new() }
    }

    /// Binds `h` to the lowest free identifier, or queues it when none is free.
    pub fn register(&mut self, h: H) -> (r: Registration)
        requires
            old(self).wf(),
        ensures
            final(self).wf(),
            (final(self)@, r) == registered(old(self)@, h),
    {
        let ghost s0 = self.slots@;
        let mut i: usize = 0;
        while i < self.slots.len()
            invariant
                self.slots@ == s0,
                s0 == old(self)@.slots,
                model_wf(old(self)@),
                self.waiting@ == old(self)@.waiting,
                s0.len() == POOL_SIZE,
                0 <= i <= POOL_SIZE,
                first_free(s0) == first_free_from(s0, i as int),
            decreases POOL_SIZE - i,
        {
            if self.slots[i].is_none() {
                assert(first_free(s0) == i);
                self.slots.set(i, Some(h));
                return Registration::Bound((i + 1) as u8);
            }
            i += 1;
        }
        proof {
            lemma_first_free(s0);
        }
        self.waiting.push(h);
        Registration::Queued
    }

    /// Whether a pending handler owns `tid`.
    pub fn is_pending(&self, tid: u8) -> (r: bool)
        requires
            self.wf(),
        ensures
            r == is_bound(self@, tid),
    {
        tid >= 1 && (tid as usize) <= POOL_SIZE && self.slots[(tid - 1) as usize].is_some()
    }

    /// The handler that owns `tid`, if any.
    pub fn pending(&self, tid: u8) -> (r: Option<&H>)
        requires
            self.wf(),
        ensures
            is_bound(self@, tid) ==> r == Some(&bound_handler(self@, tid)),
            !is_bound(self@, tid) ==> r is None,
    {
        if tid >= 1 && (tid as usize) <= POOL_SIZE {
            self.slots[(tid - 1) as usize].as_ref()
        } else {
            None
        }
    }

    /// How many handlers wait for an identifier.
    pub fn waiting_len(&self) -> (r: usize)
        ensures
            r == self@.waiting.len(),
    {
        self.waiting.len()
    }

    /// Takes out the handler that owns `tid`, handing the identifier to the
    /// handler that has waited longest.
    pub fn dispatch(&mut self, tid: u8) -> (r: Result<Released<H>, FrameError>)
        requires
            old(self).wf(),
        ensures
            final(self).wf(),
            is_bound(old(self)@, tid) ==> {
                &&& r is Ok
                &&& r->Ok_0.handler == bound_handler(old(self)@, tid)
                &&& r->Ok_0.granted == (old(self)@.waiting.len() > 0)
                &&& final(self)@ == after_release(old(self)@, tid)
            },
            !is_bound(old(self)@, tid) ==> {
                &&& r is Err
                &&& r->Err_0 == FrameError::UnmatchedTransaction(tid)
                &&& final(self)@ == old(self)@
            },
    {
        if tid == 0 || (tid as usize) > POOL_SIZE {
            return Err(FrameError::UnmatchedTransaction(tid));
        }
        let i: usize = (tid - 1) as usize;
        if self.slots[i].is_none() {
            return Err(FrameError::UnmatchedTransaction(tid));
        }
        let granted = self.waiting.len() > 0;
        let next: Option<H> = if granted {
            Some(self.waiting.remove(0))
        } else {
            None
        };
        let old_slot = self.slots.remove(i);
        self.slots.insert(i, next);
        assert(self.slots@ =~= old(self)@.slots.update(i as int, next));
        assert(granted ==> self.waiting@ =~= old(self)@.waiting.drop_first());
        Ok(Released { handler: old_slot.unwrap(), granted })
    }

    /// Takes out every handler, bound or waiting, and frees the whole pool.
    pub fn clear(&mut self) -> (r: Vec<H>)
        requires
            old(self).wf(),
        ensures
            final(self).wf(),
            final(self)@ == empty_model::<H>(),
            r@ == cancelled(old(self)@),
    {
        let mut taken = free_slots();
        std::mem::swap(&mut self.slots, &mut taken);
        let mut r: Vec<H> = Vec::new();
        while taken.len() > 0
            invariant
                r@ + bound_handlers(taken@) == bound_handlers(old(self)@.slots),
            decreases taken@.len(),
        {
            let ghost before = taken@;
            let slot = taken.remove(0);
            assert(taken@ =~= before.drop_first());
            match slot {
                Some(h) => {
                    r.push(h);
                    assert(r@ + bound_handlers(taken@) =~= bound_handlers(old(self)@.slots));
                },
                None => {},
            }
        }
        assert(r@ =~= bound_handlers(old(self)@.slots));
        let mut waiting: Vec<H> = Vec::new();
        std::mem::swap(&mut self.waiting, &mut waiting);
        r.append(&mut waiting);
        assert(self@.waiting =~= Seq::<H>::empty());
        r
    }
}

} // verus!
