//! Bounded FIFO history of the most recent readings.

use vstd::prelude::*;

verus! {

/// One parsed angle/distance pair from the sensor stream. Both fields are
/// free-form display text, kept verbatim; no numeric interpretation is made.
pub struct Reading {
    pub angle: String,
    pub distance: String,
}

/// Default capacity of the reading history shown in the dashboard.
pub const MAX_HISTORY: usize = 16;

/// How one push changes the history: append at the end, and when the buffer
/// already holds `cap` readings, evict exactly the oldest one.
pub open spec fn push_spec(s: Seq<Reading>, cap: nat, v: Reading) -> Seq<Reading> {
    if s.len() < cap {
        s.push(v)
    } else {
        s.drop_first().push(v)
    }
}

/// The history after a whole sequence of pushes, applied oldest first.
pub open spec fn push_all_spec(s: Seq<Reading>, cap: nat, vs: Seq<Reading>) -> Seq<Reading>
    decreases vs.len(),
{
    if vs.len() == 0 {
        s
    } else {
        push_all_spec(push_spec(s, cap, vs[0]), cap, vs.drop_first())
    }
}

/// The last `n` elements of a sequence (the whole sequence when it is not
/// longer than `n`).
pub open spec fn last_n(s: Seq<Reading>, n: nat) -> Seq<Reading> {
    if s.len() <= n {
        s
    } else {
        s.subrange(s.len() - n, s.len() as int)
    }
}

/// Sliding-window law: pushing a sequence of readings into a history that
/// holds no more than its capacity leaves exactly the last `cap` elements of
/// the concatenation, in arrival order.
pub proof fn lemma_push_all_window(s: Seq<Reading>, cap: nat, vs: Seq<Reading>)
    requires
        1 <= cap,
        s.len() <= cap,
    ensures
        push_all_spec(s, cap, vs) == last_n(s + vs, cap),
        push_all_spec(s, cap, vs).len() <= cap,
    decreases vs.len(),
{
    if vs.len() == 0 {
        assert(s + vs =~= s);
    } else {
        let s1 = push_spec(s, cap, vs[0]);
        lemma_push_all_window(s1, cap, vs.drop_first());
        if s.len() < cap {
            assert(s1 + vs.drop_first() =~= s + vs);
        } else {
            let t = s + vs;
            assert(s1 + vs.drop_first() =~= t.drop_first());
            if t.drop_first().len() <= cap {
                assert(last_n(t.drop_first(), cap) =~= t.subrange(
                    t.len() - cap,
                    t.len() as int,
                ));
            } else {
                assert(t.drop_first().subrange(
                    t.drop_first().len() - cap,
                    t.drop_first().len() as int,
                ) =~= t.subrange(t.len() - cap, t.len() as int));
            }
        }
    }
}

/// Buffer bound law: after more pushes than the capacity, starting from an
/// empty history, exactly the last `cap` pushed readings remain, in arrival
/// order.
pub proof fn lemma_buffer_bound(cap: nat, vs: Seq<Reading>)
    requires
        1 <= cap,
        cap < vs.len(),
    ensures
        push_all_spec(Seq::<Reading>::empty(), cap, vs).len() == cap,
        push_all_spec(Seq::<Reading>::empty(), cap, vs) == vs.subrange(
            vs.len() - cap,
            vs.len() as int,
        ),
{
    lemma_push_all_window(Seq::<Reading>::empty(), cap, vs);
    assert(Seq::<Reading>::empty() + vs =~= vs);
}

/// Ordered history of the last readings, capacity-bounded; oldest first.
/// Eviction is FIFO: on overflow the front (oldest) element leaves.
pub struct ReadingHistory {
    items: Vec<Reading>,
    capacity: usize,
}

impl View for ReadingHistory {
    type V = Seq<Reading>;

    closed spec fn view(&self) -> Seq<Reading> {
        self.items@
    }
}

impl ReadingHistory {
    /// The capacity the history was created with.
    pub closed spec fn cap(&self) -> nat {
        self.capacity as nat
    }

    /// Invariant: the history never holds more than its capacity.
    pub open spec fn wf(&self) -> bool {
        1 <= self.cap() && self@.len() <= self.cap()
    }

    /// An empty history with the given capacity.
    pub fn new(capacity: usize) -> (h: Self)
        requires
            1 <= capacity,
        ensures
            h.wf(),
            h@ == Seq::<Reading>::empty(),
            h.cap() == capacity,
    {
        ReadingHistory { items: Vec::new(), capacity }
    }

    /// Append a reading; at capacity, the oldest reading is evicted first,
    /// and the order of all other readings is preserved.
    pub fn push(&mut self, v: Reading)
        requires
            old(self).wf(),
        ensures
            final(self).wf(),
            final(self).cap() == old(self).cap(),
            final(self)@ == push_spec(old(self)@, old(self).cap(), v),
    {
        if self.items.len() == self.capacity {
            self.items.remove(0);
            proof {
                assert(self.items@ =~= old(self)@.drop_first());
            }
        }
        self.items.push(v);
    }

    /// Read-only view of the current contents, oldest first. The result is a
    /// function of the history alone, so two snapshots without an intervening
    /// push are identical.
    pub fn snapshot(&self) -> (s: &Vec<Reading>)
        ensures
            s@ == self@,
    {
        &self.items
    }

    /// Number of readings currently held.
    pub fn len(&self) -> (n: usize)
        ensures
            n == self@.len(),
    {
        self.items.len()
    }
}

} // verus!
