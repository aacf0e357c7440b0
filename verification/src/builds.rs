//! Serialization of full rebuilds.
//!
//! The external asset compiler runs at most once at a time system-wide. A
//! trigger that arrives while a rebuild is in flight is not dropped and
//! does not overlap: it leaves exactly one more rebuild pending, started
//! when the current one completes. On a successful completion the manager
//! instructs its caller to publish a full-reload notification (and to
//! regenerate the host page when the project configuration asks for it);
//! a failed build publishes nothing, so clients keep their last good
//! state.

use vstd::prelude::*;

verus! {

/// Aggregate result of one completed build, reported to the console.
pub struct BuildResult {
    /// Diagnostics the compiler emitted.
    pub warnings: Vec<String>,
    /// Wall-clock duration of the build in milliseconds.
    pub elapsed_millis: u64,
}

/// A failed build: its diagnostics go to the console, and no reload is
/// broadcast, so clients keep their last good state.
pub struct BuildError {
    pub diagnostics: Vec<String>,
}

/// What the caller must do after a rebuild completed.
#[derive(Clone, Copy, PartialEq, Eq, Structural, Debug)]
pub struct CompletionAction {
    /// Publish a full-reload message to the hub.
    pub publish_full_reload: bool,
    /// Regenerate the host page before publishing.
    pub regen_html: bool,
    /// A trailing trigger is pending: run one more rebuild now.
    pub start_next: bool,
}

/// Rebuild serialization state.
pub struct BuildManager {
    /// Whether the project configuration asks for host-page regeneration
    /// after a successful rebuild.
    pub reload_html: bool,
    /// A rebuild is currently executing.
    pub in_flight: bool,
    /// A trigger arrived during the in-flight rebuild; one more rebuild
    /// runs when it completes.
    pub pending: bool,
    /// Rebuild executions started so far.
    pub started: u64,
    /// Rebuild executions completed so far.
    pub finished: u64,
}

impl BuildManager {
    /// Executions never overlap: at most one start is unaccounted for, and
    /// a trailing trigger is only recorded while a rebuild is in flight.
    pub open spec fn wf(self) -> bool {
        &&& self.in_flight ==> self.started == self.finished + 1
        &&& !self.in_flight ==> self.started == self.finished
        &&& self.pending ==> self.in_flight
    }

    /// Exactly the transition `request_rebuild` makes: an idle manager
    /// starts an execution at once; a busy one records a single pending
    /// trigger instead.
    pub open spec fn request_transition(pre: BuildManager, post: BuildManager, starts: bool) -> bool {
        &&& starts == !pre.in_flight
        &&& starts ==> post == (BuildManager {
            in_flight: true,
            started: (pre.started + 1) as u64,
            ..pre
        })
        &&& !starts ==> post == (BuildManager { pending: true, ..pre })
    }

    /// Exactly the transition `complete` makes: the execution is
    /// accounted for; a recorded trailing trigger starts the next one
    /// immediately; only success is broadcast.
    pub open spec fn complete_transition(
        pre: BuildManager,
        post: BuildManager,
        act: CompletionAction,
        success: bool,
    ) -> bool {
        &&& act.publish_full_reload == success
        &&& act.regen_html == (success && pre.reload_html)
        &&& act.start_next == pre.pending
        &&& post == (BuildManager {
            in_flight: pre.pending,
            pending: false,
            started: if pre.pending {
                (pre.started + 1) as u64
            } else {
                pre.started
            },
            finished: (pre.finished + 1) as u64,
            ..pre
        })
    }

    pub fn new(reload_html: bool) -> (m: BuildManager)
        ensures
            m == (BuildManager {
                reload_html,
                in_flight: false,
                pending: false,
                started: 0,
                finished: 0,
            }),
            m.wf(),
    {
        BuildManager { reload_html, in_flight: false, pending: false, started: 0, finished: 0 }
    }

    /// Ask for a full rebuild. Returns whether the caller must start an
    /// execution now; when one is already in flight, exactly one more is
    /// recorded for after its completion instead.
    pub fn request_rebuild(&mut self) -> (starts: bool)
        requires
            old(self).wf(),
            old(self).started < u64::MAX,
        ensures
            final(self).wf(),
            Self::request_transition(*old(self), *final(self), starts),
    {
        if self.in_flight {
            self.pending = true;
            false
        } else {
            self.in_flight = true;
            self.started = self.started + 1;
            true
        }
    }

    /// Record that the in-flight rebuild finished, successfully or not,
    /// and say what follows: publish on success only, and start the one
    /// pending execution if a trigger arrived meanwhile.
    pub fn complete(&mut self, success: bool) -> (act: CompletionAction)
        requires
            old(self).wf(),
            old(self).in_flight,
            old(self).started < u64::MAX,
        ensures
            final(self).wf(),
            Self::complete_transition(*old(self), *final(self), act, success),
    {
        let act = CompletionAction {
            publish_full_reload: success,
            regen_html: success && self.reload_html,
            start_next: self.pending,
        };
        self.finished = self.finished + 1;
        if self.pending {
            self.started = self.started + 1;
            self.in_flight = true;
        } else {
            self.in_flight = false;
        }
        self.pending = false;
        act
    }
}

/// At-most-one-rebuild: two triggers issued before the first execution
/// completes yield exactly two executions total, the second starting only
/// at the first one's completion, never overlapping. `m0` is idle; `m1`
/// follows the first trigger, `m2` the second trigger, `m3` the first
/// completion, `m4` the second completion.
pub proof fn lemma_at_most_one_rebuild(
    m0: BuildManager,
    m1: BuildManager,
    m2: BuildManager,
    m3: BuildManager,
    m4: BuildManager,
    s1: bool,
    s2: bool,
    a1: CompletionAction,
    a2: CompletionAction,
    ok1: bool,
    ok2: bool,
)
    requires
        m0.wf(),
        !m0.in_flight,
        m0.started < u64::MAX - 1,
        BuildManager::request_transition(m0, m1, s1),
        BuildManager::request_transition(m1, m2, s2),
        BuildManager::complete_transition(m2, m3, a1, ok1),
        BuildManager::complete_transition(m3, m4, a2, ok2),
    ensures
        s1,
        !s2,
        a1.start_next,
        !a2.start_next,
        m4.started == m0.started + 2,
        m4.finished == m4.started,
        !m4.in_flight,
        m1.in_flight && m2.in_flight && m3.in_flight,
{
}

} // verus!
