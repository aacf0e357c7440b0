//! Timestamp-resolution debouncing of raw file-system events.
//!
//! Editors and compilers emit several notifications per logical save; the
//! debouncer keeps a single last-accepted timestamp and drops every event
//! whose clock reading has not advanced past it, so a burst within one
//! clock tick dispatches at most one event downstream.

use vstd::prelude::*;

verus! {

/// Debouncer state: the clock reading of the last accepted event.
pub struct Debouncer {
    pub last_accepted: i64,
}

impl Debouncer {
    /// An event observed at clock reading `now` is accepted exactly when
    /// the clock has advanced past the last accepted reading.
    pub open spec fn accepts(self, now: i64) -> bool {
        now > self.last_accepted
    }

    /// The state after an event observed at `now` has been handled.
    pub open spec fn after(self, now: i64) -> Debouncer {
        if self.accepts(now) {
            Debouncer { last_accepted: now }
        } else {
            self
        }
    }

    pub fn new(start: i64) -> (d: Debouncer)
        ensures
            d.last_accepted == start,
    {
        Debouncer { last_accepted: start }
    }

    /// Accept-or-drop decision for one event at clock reading `now`;
    /// advances the last-accepted timestamp exactly when the event is
    /// accepted.
    pub fn accept(&mut self, now: i64) -> (accepted: bool)
        ensures
            accepted == old(self).accepts(now),
            *final(self) == old(self).after(now),
    {
        if now > self.last_accepted {
            self.last_accepted = now;
            true
        } else {
            false
        }
    }

}

/// Relies on chrono::Local::now and DateTime::timestamp: the local clock as
/// whole seconds since the epoch. No fixed value can be promised of a clock
/// reading.
#[verifier::external_body]
pub(crate) fn now_seconds() -> (t: i64) {
    chrono::Local::now().timestamp()
}

/// How many events of a burst get dispatched downstream: each event in turn
/// is offered to the debouncer, which advances exactly on the accepted ones.
pub open spec fn dispatch_count(d: Debouncer, ts: Seq<i64>) -> nat
    decreases ts.len(),
{
    if ts.len() == 0 {
        0
    } else if d.accepts(ts[0]) {
        1 + dispatch_count(d.after(ts[0]), ts.skip(1))
    } else {
        dispatch_count(d, ts.skip(1))
    }
}

/// A debouncer whose last-accepted timestamp has already reached `t`
/// dispatches nothing from a burst observed entirely at clock reading `t`.
pub proof fn lemma_saturated_dispatches_nothing(d: Debouncer, ts: Seq<i64>, t: i64)
    requires
        forall|i: int| 0 <= i < ts.len() ==> ts[i] == t,
        d.last_accepted >= t,
    ensures
        dispatch_count(d, ts) == 0,
    decreases ts.len(),
{
    if ts.len() > 0 {
        assert(ts[0] == t);
        assert(forall|i: int| 0 <= i < ts.skip(1).len() ==> ts.skip(1)[i] == ts[i + 1]);
        lemma_saturated_dispatches_nothing(d, ts.skip(1), t);
    }
}

/// Debounce idempotence: of any burst of events observed within the same
/// clock tick, at most one is dispatched downstream.
pub proof fn lemma_debounce_idempotent(d: Debouncer, ts: Seq<i64>, t: i64)
    requires
        forall|i: int| 0 <= i < ts.len() ==> ts[i] == t,
    ensures
        dispatch_count(d, ts) <= 1,
    decreases ts.len(),
{
    if ts.len() > 0 {
        assert(ts[0] == t);
        assert(forall|i: int| 0 <= i < ts.skip(1).len() ==> ts.skip(1)[i] == ts[i + 1]);
        if d.accepts(t) {
            lemma_saturated_dispatches_nothing(d.after(t), ts.skip(1), t);
        } else {
            lemma_debounce_idempotent(d, ts.skip(1), t);
        }
    }
}

} // verus!
