//! Reload broadcast hub: a fan-out channel with a bounded, lossy backlog
//! per subscriber.
//!
//! Publishing never blocks: each active subscriber has its own backlog, a
//! message published against a full backlog evicts the oldest entry and
//! marks the subscriber lagged, and a message with no active subscriber is
//! simply dropped. A lagged subscriber learns of the loss as a distinct
//! signal on its next read, before delivery resumes from the oldest
//! retained message; per subscriber, messages are delivered in publish
//! order.

use crate::template::TemplateRecord;
use vstd::pervasive::VecAdditionalExecFns;
use vstd::prelude::*;

verus! {

/// A notification fanned out to every connected client session.
#[derive(Clone, Copy, PartialEq, Eq, Structural, Debug)]
pub enum ReloadMessage {
    /// Discard state and reload the page from scratch.
    FullReload,
    /// Apply one in-place template update.
    HotPatch(TemplateRecord),
}

/// What one read from a subscription yields.
#[derive(Clone, Copy, PartialEq, Eq, Structural, Debug)]
pub enum RecvOutcome {
    /// The backlog overflowed since the last read: messages were lost and
    /// the subscriber cannot know which.
    Lagged,
    /// No message is pending.
    Empty,
    /// The next message, in publish order.
    Delivered(ReloadMessage),
}

/// Abstract state of one subscription.
pub ghost struct SubView {
    pub active: bool,
    pub lagged: bool,
    pub queue: Seq<ReloadMessage>,
}

/// How one published message reaches one subscription: appended to an
/// active backlog with room; against a full backlog the oldest entry is
/// evicted and the loss recorded; an inactive subscription is untouched.
pub open spec fn deliver(s: SubView, m: ReloadMessage, cap: int) -> SubView {
    if !s.active {
        s
    } else if s.queue.len() < cap {
        SubView { queue: s.queue.push(m), ..s }
    } else {
        SubView { lagged: true, queue: s.queue.skip(1).push(m), ..s }
    }
}

/// `deliver`, folded over a sequence of published messages.
pub open spec fn deliver_all(s: SubView, msgs: Seq<ReloadMessage>, cap: int) -> SubView
    decreases msgs.len(),
{
    if msgs.len() == 0 {
        s
    } else {
        deliver(deliver_all(s, msgs.drop_last(), cap), msgs.last(), cap)
    }
}

/// How many of the hub's first `n` subscriptions are active.
pub open spec fn active_below(h: Hub, n: int) -> nat
    decreases n,
{
    if n <= 0 {
        0
    } else {
        active_below(h, n - 1) + if h.sub(n - 1).active {
            1nat
        } else {
            0nat
        }
    }
}

struct Subscriber {
    active: bool,
    lagged: bool,
    queue: Vec<ReloadMessage>,
}

impl Subscriber {
    spec fn view(&self) -> SubView {
        SubView { active: self.active, lagged: self.lagged, queue: self.queue@ }
    }
}

/// Multi-consumer broadcast hub with one bounded backlog per subscriber.
pub struct Hub {
    capacity: usize,
    subs: Vec<Subscriber>,
}

impl Hub {
    /// The fixed per-subscriber backlog capacity.
    pub closed spec fn cap(self) -> int {
        self.capacity as int
    }

    /// How many subscriptions exist, active or not.
    pub closed spec fn n_subs(self) -> int {
        self.subs@.len() as int
    }

    /// Abstract state of subscription `i`.
    pub closed spec fn sub(self, i: int) -> SubView {
        self.subs@[i]@
    }

    /// Backlogs never exceed the fixed capacity.
    pub open spec fn wf(self) -> bool {
        &&& self.cap() >= 1
        &&& forall|i: int| 0 <= i < self.n_subs() ==> (#[trigger] self.sub(i)).queue.len() <= self.cap()
    }

    pub fn new(capacity: usize) -> (h: Hub)
        requires
            capacity >= 1,
        ensures
            h.wf(),
            h.cap() == capacity,
            h.n_subs() == 0,
    {
        Hub { capacity, subs: Vec::new() }
    }

    /// Open a fresh subscription; its id indexes the hub for reads.
    pub fn subscribe(&mut self) -> (id: usize)
        requires
            old(self).wf(),
        ensures
            final(self).wf(),
            final(self).cap() == old(self).cap(),
            final(self).n_subs() == old(self).n_subs() + 1,
            id == old(self).n_subs(),
            final(self).sub(id as int) == (SubView {
                active: true,
                lagged: false,
                queue: Seq::empty(),
            }),
            forall|i: int| 0 <= i < old(self).n_subs() ==> final(self).sub(i) == old(self).sub(i),
    {
        let id = self.subs.len();
        self.subs.push(Subscriber { active: true, lagged: false, queue: Vec::new() });
        proof {
            assert forall|i: int| 0 <= i < old(self).n_subs() implies self.sub(i) == old(self).sub(
                i,
            ) by {
                assert(self.subs@[i] == old(self).subs@[i]);
            }
            assert forall|i: int| 0 <= i < self.n_subs() implies (#[trigger] self.sub(i)).queue.len()
                <= self.cap() by {
                if i < old(self).n_subs() {
                    assert(self.sub(i) == old(self).sub(i));
                    assert(old(self).sub(i).queue.len() <= old(self).cap());
                }
            }
        }
        id
    }

    /// Release a subscription: its backlog is dropped and no further
    /// message reaches it.
    pub fn unsubscribe(&mut self, id: usize)
        requires
            old(self).wf(),
            0 <= id < old(self).n_subs(),
        ensures
            final(self).wf(),
            final(self).cap() == old(self).cap(),
            final(self).n_subs() == old(self).n_subs(),
            final(self).sub(id as int) == (SubView {
                active: false,
                lagged: false,
                queue: Seq::empty(),
            }),
            forall|i: int|
                0 <= i < old(self).n_subs() && i != id ==> final(self).sub(i) == old(self).sub(i),
    {
        self.subs.set(id, Subscriber { active: false, lagged: false, queue: Vec::new() });
        proof {
            assert forall|i: int| 0 <= i < self.n_subs() implies (#[trigger] self.sub(i)).queue.len()
                <= self.cap() by {
                if i != id {
                    assert(self.subs@[i] == old(self).subs@[i]);
                    assert(self.sub(i) == old(self).sub(i));
                    assert(old(self).sub(i).queue.len() <= old(self).cap());
                }
            }
        }
    }

    /// Reset a subscription after a detected overflow: the backlog and the
    /// lag record are cleared, as if freshly subscribed at the tail.
    pub fn resubscribe(&mut self, id: usize)
        requires
            old(self).wf(),
            0 <= id < old(self).n_subs(),
        ensures
            final(self).wf(),
            final(self).cap() == old(self).cap(),
            final(self).n_subs() == old(self).n_subs(),
            final(self).sub(id as int) == (SubView {
                active: old(self).sub(id as int).active,
                lagged: false,
                queue: Seq::empty(),
            }),
            forall|i: int|
                0 <= i < old(self).n_subs() && i != id ==> final(self).sub(i) == old(self).sub(i),
    {
        let was_active = self.subs[id].active;
        self.subs.set(id, Subscriber { active: was_active, lagged: false, queue: Vec::new() });
        proof {
            assert forall|i: int| 0 <= i < self.n_subs() implies (#[trigger] self.sub(i)).queue.len()
                <= self.cap() by {
                if i != id {
                    assert(self.subs@[i] == old(self).subs@[i]);
                    assert(self.sub(i) == old(self).sub(i));
                    assert(old(self).sub(i).queue.len() <= old(self).cap());
                }
            }
        }
    }

    /// Publish one message: delivered independently to every active
    /// subscription, never blocking the publisher; with zero active
    /// subscriptions the message is dropped and the hub is unchanged.
    /// Returns how many subscriptions the message reached.
    pub fn publish(&mut self, m: ReloadMessage) -> (delivered: usize)
        requires
            old(self).wf(),
        ensures
            final(self).wf(),
            final(self).cap() == old(self).cap(),
            final(self).n_subs() == old(self).n_subs(),
            forall|i: int|
                0 <= i < old(self).n_subs() ==> final(self).sub(i) == deliver(
                    old(self).sub(i),
                    m,
                    old(self).cap(),
                ),
            delivered == active_below(*old(self), old(self).n_subs()),
    {
        let ghost orig = *self;
        let mut delivered: usize = 0;
        let n = self.subs.len();
        let mut i: usize = 0;
        while i < n
            invariant
                self.capacity == orig.capacity,
                orig.wf(),
                n == orig.n_subs(),
                self.subs@.len() == n,
                0 <= i <= n,
                forall|j: int| 0 <= j < i ==> self.sub(j) == deliver(orig.sub(j), m, orig.cap()),
                forall|j: int| i <= j < n ==> self.sub(j) == orig.sub(j),
                delivered == active_below(orig, i as int),
                delivered <= i,
            decreases n - i,
        {
            let ghost before_step = *self;
            let mut cur = Subscriber { active: false, lagged: false, queue: Vec::new() };
            self.subs.set_and_swap(i, &mut cur);
            if cur.active {
                delivered = delivered + 1;
                if cur.queue.len() < self.capacity {
                    cur.queue.push(m);
                } else {
                    cur.queue.remove(0);
                    cur.queue.push(m);
                    cur.lagged = true;
                    proof {
                        assert(cur@.queue =~= orig.sub(i as int).queue.skip(1).push(m));
                    }
                }
            }
            let ghost prev = before_step;
            self.subs.set(i, cur);
            proof {
                assert(self.sub(i as int) == deliver(orig.sub(i as int), m, orig.cap()));
                assert forall|j: int| 0 <= j < i implies self.sub(j) == deliver(
                    orig.sub(j),
                    m,
                    orig.cap(),
                ) by {
                    assert(self.subs@[j] == prev.subs@[j]);
                    assert(self.sub(j) == prev.sub(j));
                    assert(prev.sub(j) == deliver(orig.sub(j), m, orig.cap()));
                }
                assert forall|j: int| i + 1 <= j < n implies self.sub(j) == orig.sub(j) by {
                    assert(self.subs@[j] == prev.subs@[j]);
                    assert(self.sub(j) == prev.sub(j));
                    assert(prev.sub(j) == orig.sub(j));
                }
            }
            i = i + 1;
        }
        delivered
    }

    /// One read from subscription `id`: a recorded overflow surfaces once
    /// as `Lagged` (delivery then resumes from the oldest retained
    /// message); otherwise the oldest pending message is handed out, in
    /// publish order, or `Empty` says none is pending. No other
    /// subscription is touched.
    pub fn recv(&mut self, id: usize) -> (r: RecvOutcome)
        requires
            old(self).wf(),
            0 <= id < old(self).n_subs(),
        ensures
            final(self).wf(),
            final(self).cap() == old(self).cap(),
            final(self).n_subs() == old(self).n_subs(),
            forall|i: int|
                0 <= i < old(self).n_subs() && i != id ==> final(self).sub(i) == old(self).sub(i),
            old(self).sub(id as int).lagged ==> r == RecvOutcome::Lagged && final(self).sub(
                id as int,
            ) == (SubView { lagged: false, ..old(self).sub(id as int) }),
            !old(self).sub(id as int).lagged && old(self).sub(id as int).queue.len() == 0 ==> r
                == RecvOutcome::Empty && final(self).sub(id as int) == old(self).sub(id as int),
            !old(self).sub(id as int).lagged && old(self).sub(id as int).queue.len() > 0 ==> r
                == RecvOutcome::Delivered(old(self).sub(id as int).queue[0]) && final(self).sub(
                id as int,
            ) == (SubView {
                queue: old(self).sub(id as int).queue.skip(1),
                ..old(self).sub(id as int)
            }),
    {
        let mut cur = Subscriber { active: false, lagged: false, queue: Vec::new() };
        self.subs.set_and_swap(id, &mut cur);
        let r: RecvOutcome;
        if cur.lagged {
            cur.lagged = false;
            r = RecvOutcome::Lagged;
        } else if cur.queue.len() == 0 {
            r = RecvOutcome::Empty;
        } else {
            let m = cur.queue.remove(0);
            proof {
                assert(cur@.queue =~= old(self).sub(id as int).queue.skip(1));
            }
            r = RecvOutcome::Delivered(m);
        }
        self.subs.set(id, cur);
        proof {
            assert forall|i: int|
                0 <= i < self.n_subs() && i != id implies self.sub(i) == old(self).sub(i) by {
                assert(self.subs@[i] == old(self).subs@[i]);
                assert(old(self).sub(i).queue.len() <= old(self).cap());
            }
        }
        r
    }
}

/// Broadcast isolation, the prompt side: a subscriber with room for a whole
/// burst receives every message of it, appended in publish order, with no
/// lag recorded — whatever any other subscriber's backlog holds, since a
/// publish acts on each subscription independently.
pub proof fn lemma_prompt_subscriber_in_order(s: SubView, msgs: Seq<ReloadMessage>, cap: int)
    requires
        s.active,
        s.queue.len() + msgs.len() <= cap,
    ensures
        deliver_all(s, msgs, cap) == (SubView { queue: s.queue + msgs, ..s }),
    decreases msgs.len(),
{
    if msgs.len() == 0 {
        assert(s.queue + msgs =~= s.queue);
    } else {
        lemma_prompt_subscriber_in_order(s, msgs.drop_last(), cap);
        assert((s.queue + msgs.drop_last()).push(msgs.last()) =~= s.queue + msgs);
    }
}

/// Broadcast isolation, the lagging side: a message published against a
/// full backlog records the overflow for that subscriber alone and keeps
/// its backlog at capacity, evicting only its own oldest entry.
pub proof fn lemma_lagging_subscriber_marked(s: SubView, m: ReloadMessage, cap: int)
    requires
        s.active,
        cap >= 1,
        s.queue.len() == cap,
    ensures
        deliver(s, m, cap).lagged,
        deliver(s, m, cap).queue == s.queue.skip(1).push(m),
        deliver(s, m, cap).queue.len() == cap,
{
}

/// Publishing with zero active subscriptions is safe: every subscription
/// (there may be inactive ones) is left exactly as it was, and the message
/// reaches no one.
pub proof fn lemma_publish_no_subscribers(h: Hub, m: ReloadMessage, cap: int)
    requires
        forall|i: int| 0 <= i < h.n_subs() ==> !(#[trigger] h.sub(i)).active,
    ensures
        forall|i: int| 0 <= i < h.n_subs() ==> deliver(#[trigger] h.sub(i), m, cap) == h.sub(i),
        active_below(h, h.n_subs()) == 0,
{
    lemma_no_active_below(h, h.n_subs());
}

proof fn lemma_no_active_below(h: Hub, n: int)
    requires
        forall|i: int| 0 <= i < h.n_subs() ==> !(#[trigger] h.sub(i)).active,
        n <= h.n_subs(),
    ensures
        active_below(h, n) == 0,
    decreases n,
{
    if n > 0 {
        lemma_no_active_below(h, n - 1);
    }
}

} // verus!
