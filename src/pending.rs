use vstd::prelude::*;

verus! {

/// A request waiting for its response: its correlation id, when it was
/// submitted, and the handle that completes it.
pub struct PendingSlot<W> {
    pub id: u32,
    pub submitted_at: u64,
    pub waiter: W,
}

/// Why a submission was refused.
#[derive(Clone, Copy, Debug, PartialEq, Eq, Structural)]
pub enum MuxError {
    /// The connection failed; it accepts no more requests.
    ConnectionClosed,
    /// Every correlation id is in flight.
    IdSpaceExhausted,
}

pub open spec fn has_id<W>(s: Seq<PendingSlot<W>>, id: u32) -> bool {
    exists|i: int| 0 <= i < s.len() && #[trigger] s[i].id == id
}

/// No two pending slots share a correlation id.
pub open spec fn ids_unique<W>(s: Seq<PendingSlot<W>>) -> bool {
    forall|i: int, j: int| 0 <= i < s.len() && 0 <= j < s.len() && i != j ==> #[trigger] s[i].id
        != #[trigger] s[j].id
}

/// What taking `id` out of a table does: the slot comes back exactly when
/// the id was in flight, and only that slot leaves.
pub open spec fn took<W>(
    before: Seq<PendingSlot<W>>,
    after: Seq<PendingSlot<W>>,
    id: u32,
    r: Option<PendingSlot<W>>,
) -> bool {
    &&& (has_id(before, id) <==> r is Some)
    &&& (r is None ==> after == before)
    &&& (r matches Some(slot) ==> slot.id == id && exists|i: int|
        0 <= i < before.len() && before[i] == slot && after == before.remove(i))
}

/// The id `k` steps after `last` on the wrapping 32-bit counter.
pub open spec fn candidate(last: u32, k: int) -> u32 {
    ((last as int + k) % 0x1_0000_0000) as u32
}

/// The pending table of one multiplexed connection: the id generator, the
/// liveness flag and the requests awaiting a response. A single owner (the
/// connection's task) drives it: submissions, decoded responses, timeouts
/// and connection failure each become one call.
pub struct MultiplexState<W> {
    last_id: u32,
    alive: bool,
    slots: Vec<PendingSlot<W>>,
}

impl<W> MultiplexState<W> {
    pub closed spec fn pending(&self) -> Seq<PendingSlot<W>> {
        self.slots@
    }

    pub closed spec fn spec_alive(&self) -> bool {
        self.alive
    }

    pub closed spec fn spec_last_id(&self) -> u32 {
        self.last_id
    }

    pub open spec fn wf(&self) -> bool {
        ids_unique(self.pending())
    }

    pub fn new() -> (r: Self)
        ensures
            r.wf(),
            r.spec_alive(),
            r.spec_last_id() == 0,
            r.pending() == Seq::<PendingSlot<W>>::empty(),
    {
        MultiplexState { last_id: 0, alive: true, slots: Vec::new() }
    }

    /// An empty table whose next id is the one after `last_id`: the counter
    /// of a connection may start anywhere.
    pub fn starting_after(last_id: u32) -> (r: Self)
        ensures
            r.wf(),
            r.spec_alive(),
            r.spec_last_id() == last_id,
            r.pending() == Seq::<PendingSlot<W>>::empty(),
    {
        MultiplexState { last_id, alive: true, slots: Vec::new() }
    }

    pub fn is_alive(&self) -> (r: bool)
        ensures
            r == self.spec_alive(),
    {
        self.alive
    }

    /// Number of requests in flight.
    pub fn len(&self) -> (r: usize)
        ensures
            r == self.pending().len(),
    {
        self.slots.len()
    }

    pub fn contains(&self, id: u32) -> (r: bool)
        ensures
            r == has_id(self.pending(), id),
    {
        let mut i: usize = 0;
        while i < self.slots.len()
            invariant
                0 <= i <= self.slots@.len(),
                forall|j: int| 0 <= j < i ==> self.slots@[j].id != id,
            decreases self.slots@.len() - i,
        {
            if self.slots[i].id == id {
                return true;
            }
            i = i + 1;
        }
        false
    }

    /// Registers a request: takes the next id of the wrapping counter that is
    /// not in flight and records the slot under it. Refused once the
    /// connection has failed, and when every id is in flight.
    pub fn submit(&mut self, submitted_at: u64, waiter: W) -> (r: Result<u32, MuxError>)
        requires
            old(self).wf(),
        ensures
            final(self).wf(),
            final(self).spec_alive() == old(self).spec_alive(),
            !old(self).spec_alive() ==> r == Err::<u32, MuxError>(MuxError::ConnectionClosed),
            r is Err ==> final(self).pending() == old(self).pending() && final(self).spec_last_id()
                == old(self).spec_last_id(),
            r == Err::<u32, MuxError>(MuxError::IdSpaceExhausted) ==> forall|id: u32|
                has_id(old(self).pending(), id),
            r matches Ok(id) ==> {
                &&& old(self).spec_alive()
                &&& !has_id(old(self).pending(), id)
                &&& final(self).pending() == old(self).pending().push(
                    PendingSlot { id, submitted_at, waiter },
                )
                &&& final(self).spec_last_id() == id
                &&& exists|d: int|
                    1 <= d <= 0x1_0000_0000 && id == candidate(old(self).spec_last_id(), d) && (
                    forall|k: int|
                        1 <= k < d ==> has_id(
                            old(self).pending(),
                            #[trigger] candidate(old(self).spec_last_id(), k),
                        ))
            },
            old(self).spec_alive() && (exists|id: u32| !has_id(old(self).pending(), id)) ==> r is Ok,
    {
        if !self.alive {
            return Err(MuxError::ConnectionClosed);
        }
        let last = self.last_id;
        let mut k: u64 = 1;
        while k <= 0x1_0000_0000
            invariant
                1 <= k <= 0x1_0000_0001,
                self.last_id == last,
                last == old(self).last_id,
                self.alive,
                old(self).alive,
                self.slots@ == old(self).slots@,
                self.wf(),
                forall|j: int| 1 <= j < k ==> has_id(self.pending(), #[trigger] candidate(last, j)),
            decreases 0x1_0000_0001 - k,
        {
            let cand = ((last as u64 + k) % 0x1_0000_0000) as u32;
            assert(cand == candidate(last, k as int));
            if !self.contains(cand) {
                let ghost before = self.slots@;
                self.slots.push(PendingSlot { id: cand, submitted_at, waiter });
                self.last_id = cand;
                proof {
                    lemma_fresh_id_keeps_unique(before, self.slots@.last());
                }
                let ghost d = k as int;
                assert(1 <= d <= 0x1_0000_0000 && cand == candidate(old(self).spec_last_id(), d) && (
                forall|j: int|
                    1 <= j < d ==> has_id(
                        old(self).pending(),
                        #[trigger] candidate(old(self).spec_last_id(), j),
                    )));
                return Ok(cand);
            }
            k = k + 1;
        }
        assert forall|id: u32| has_id(old(self).pending(), id) by {
            let d: int = if id as int > last as int {
                id as int - last as int
            } else {
                id as int - last as int + 0x1_0000_0000
            };
            assert(candidate(last, d) == id);
        }
        Err(MuxError::IdSpaceExhausted)
    }

    /// Removes and returns the slot of `id`, if it is in flight. Both the
    /// reader (on a decoded response) and the timeout path call this: only the
    /// call that gets the slot back may complete it, so each request is
    /// completed at most once, and an id that is not in flight (a late
    /// response, a duplicate) changes nothing.
    pub fn take(&mut self, id: u32) -> (r: Option<PendingSlot<W>>)
        requires
            old(self).wf(),
        ensures
            final(self).wf(),
            final(self).spec_alive() == old(self).spec_alive(),
            final(self).spec_last_id() == old(self).spec_last_id(),
            took(old(self).pending(), final(self).pending(), id, r),
    {
        let mut i: usize = 0;
        while i < self.slots.len()
            invariant
                0 <= i <= self.slots@.len(),
                self.slots@ == old(self).slots@,
                self.alive == old(self).alive,
                self.last_id == old(self).last_id,
                old(self).wf(),
                forall|j: int| 0 <= j < i ==> self.slots@[j].id != id,
            decreases self.slots@.len() - i,
        {
            if self.slots[i].id == id {
                let ghost before = self.slots@;
                let slot = self.slots.remove(i);
                proof {
                    lemma_remove_keeps_unique(before, i as int);
                }
                return Some(slot);
            }
            i = i + 1;
        }
        None
    }

    /// Marks the connection dead and hands back every pending slot, so each
    /// can be completed with a connection-closed error.
    pub fn fail_all(&mut self) -> (r: Vec<PendingSlot<W>>)
        requires
            old(self).wf(),
        ensures
            final(self).wf(),
            !final(self).spec_alive(),
            final(self).spec_last_id() == old(self).spec_last_id(),
            final(self).pending() == Seq::<PendingSlot<W>>::empty(),
            r@ == old(self).pending(),
    {
        self.alive = false;
        let mut out: Vec<PendingSlot<W>> = Vec::new();
        core::mem::swap(&mut out, &mut self.slots);
        out
    }
}

proof fn lemma_remove_keeps_unique<W>(s: Seq<PendingSlot<W>>, i: int)
    requires
        ids_unique(s),
        0 <= i < s.len(),
    ensures
        ids_unique(s.remove(i)),
        forall|id: u32| has_id(s.remove(i), id) <==> (has_id(s, id) && id != s[i].id),
{
    let t = s.remove(i);
    assert forall|a: int, b: int| 0 <= a < t.len() && 0 <= b < t.len() && a != b implies #[trigger] t[a].id
        != #[trigger] t[b].id by {
        let sa = if a < i { a } else { a + 1 };
        let sb = if b < i { b } else { b + 1 };
        assert(t[a] == s[sa]);
        assert(t[b] == s[sb]);
    }
    assert forall|id: u32| has_id(t, id) <==> (has_id(s, id) && id != s[i].id) by {
        if has_id(t, id) {
            let a = choose|a: int| 0 <= a < t.len() && #[trigger] t[a].id == id;
            let sa = if a < i { a } else { a + 1 };
            assert(t[a] == s[sa]);
        }
        if has_id(s, id) && id != s[i].id {
            let a = choose|a: int| 0 <= a < s.len() && #[trigger] s[a].id == id;
            if a < i {
                assert(t[a] == s[a]);
            } else {
                assert(t[a - 1] == s[a]);
            }
        }
    }
}

/// Registering a request under an id that is not in flight keeps every
/// pending id distinct.
pub proof fn lemma_fresh_id_keeps_unique<W>(s: Seq<PendingSlot<W>>, slot: PendingSlot<W>)
    requires
        ids_unique(s),
        !has_id(s, slot.id),
    ensures
        ids_unique(s.push(slot)),
        has_id(s.push(slot), slot.id),
{
    let t = s.push(slot);
    assert(t[s.len() as int] == slot);
    assert forall|i: int, j: int| 0 <= i < t.len() && 0 <= j < t.len() && i != j implies #[trigger] t[i].id
        != #[trigger] t[j].id by {
        if i < s.len() && j < s.len() {
            assert(t[i] == s[i] && t[j] == s[j]);
        } else if i < s.len() {
            assert(t[i] == s[i]);
        } else {
            assert(t[j] == s[j]);
        }
    }
}

/// Two requests registered one after the other, with nothing completed in
/// between, get different ids, and both are pending.
pub proof fn lemma_successive_ids_differ<W>(
    s0: Seq<PendingSlot<W>>,
    a: PendingSlot<W>,
    b: PendingSlot<W>,
)
    requires
        ids_unique(s0),
        !has_id(s0, a.id),
        !has_id(s0.push(a), b.id),
    ensures
        a.id != b.id,
        ids_unique(s0.push(a).push(b)),
        has_id(s0.push(a).push(b), a.id),
        has_id(s0.push(a).push(b), b.id),
{
    lemma_fresh_id_keeps_unique(s0, a);
    lemma_fresh_id_keeps_unique(s0.push(a), b);
    assert(s0.push(a).push(b)[s0.len() as int] == a);
}

/// A response whose id is not in flight is dropped: nothing is completed and
/// every pending request stays pending as it was.
pub proof fn lemma_unmatched_response_discarded<W>(
    before: Seq<PendingSlot<W>>,
    after: Seq<PendingSlot<W>>,
    id: u32,
    r: Option<PendingSlot<W>>,
)
    requires
        took(before, after, id, r),
        !has_id(before, id),
    ensures
        r is None,
        after == before,
{
}

/// A request is completed at most once: after one path (response or
/// timeout) has taken its slot, a later response or timeout for the same id
/// finds nothing, and the other requests are untouched by either.
pub proof fn lemma_completed_once<W>(
    s0: Seq<PendingSlot<W>>,
    s1: Seq<PendingSlot<W>>,
    s2: Seq<PendingSlot<W>>,
    id: u32,
    first: Option<PendingSlot<W>>,
    second: Option<PendingSlot<W>>,
)
    requires
        ids_unique(s0),
        took(s0, s1, id, first),
        took(s1, s2, id, second),
    ensures
        second is None,
        s2 == s1,
        ids_unique(s1),
        forall|other: u32| other != id ==> (has_id(s1, other) <==> has_id(s0, other)),
{
    if first is Some {
        let i = choose|i: int| 0 <= i < s0.len() && s0[i] == first->Some_0 && s1 == s0.remove(i);
        lemma_remove_keeps_unique(s0, i);
    }
}

/// When the connection fails with N requests pending, exactly those N are
/// handed back, each once; afterwards no response or timeout finds any of
/// them.
pub proof fn lemma_failure_completes_each_once<W>(
    before: Seq<PendingSlot<W>>,
    handed_back: Seq<PendingSlot<W>>,
    after: Seq<PendingSlot<W>>,
    later: Seq<PendingSlot<W>>,
    id: u32,
    r: Option<PendingSlot<W>>,
)
    requires
        ids_unique(before),
        handed_back == before,
        after == Seq::<PendingSlot<W>>::empty(),
        took(after, later, id, r),
    ensures
        handed_back.len() == before.len(),
        ids_unique(handed_back),
        forall|x: u32| has_id(handed_back, x) <==> has_id(before, x),
        r is None,
        later == after,
{
}

} // verus!
