//! The hot-reload coordination engine.
//!
//! One settled batch of file-system changes runs through the debouncer,
//! the template index and the build manager: a changed file that is not a
//! template source, or a structural template change, asks for a full
//! rebuild (processing of the batch stops there, as the rebuild will
//! resynchronize everything); patchable changes accumulate across the
//! whole batch and go out as one burst of hot-patch messages; a file that
//! fails to parse is recorded and the rest of the batch is processed
//! unharmed. Rebuild completions publish a full reload on success only.

use crate::builds::{BuildError, BuildManager, BuildResult, CompletionAction};
use crate::debounce::{now_seconds, Debouncer};
use crate::hub::{deliver, deliver_all, Hub, ReloadMessage};
use crate::template::{
    changed_records, patchable, stored, wf_records, FileMap, TemplateRecord, UpdateOutcome,
};
use vstd::prelude::*;

verus! {

/// What kind of change one path of a batch carries.
pub enum ChangeKind {
    /// A template source file, with the outcome of re-parsing it
    /// (`None`: the parse failed).
    SourceTemplates(Option<Vec<TemplateRecord>>),
    /// Any other file: only a full rebuild can propagate it.
    Other,
}

/// One changed path of a settled batch.
pub struct PathChange {
    /// Interned id of the changed file.
    pub path: u64,
    pub kind: ChangeKind,
}

/// A change is well formed when a successful re-parse carries a record
/// sequence well formed for its file.
pub open spec fn change_wf(c: PathChange) -> bool {
    match c.kind {
        ChangeKind::SourceTemplates(parsed) => match parsed {
            Some(rs) => wf_records(c.path, rs@),
            None => true,
        },
        ChangeKind::Other => true,
    }
}

/// Abstract state of a batch walk: whether a full rebuild has been asked
/// for (which ends the walk), the index contents, the accumulated
/// patches, and the paths that failed to parse.
pub ghost struct ScanState {
    pub rebuild: bool,
    pub map: Map<u64, Seq<TemplateRecord>>,
    pub patches: Seq<TemplateRecord>,
    pub failed: Seq<u64>,
}

/// One step of the batch walk, exactly as the engine treats one changed
/// path.
pub open spec fn scan_step(st: ScanState, c: PathChange) -> ScanState {
    match c.kind {
        ChangeKind::Other => ScanState { rebuild: true, patches: Seq::empty(), ..st },
        ChangeKind::SourceTemplates(parsed) => match parsed {
            None => ScanState { failed: st.failed.push(c.path), ..st },
            Some(rs) => if patchable(stored(st.map, c.path), rs@) {
                ScanState {
                    map: st.map.insert(c.path, rs@),
                    patches: st.patches + changed_records(stored(st.map, c.path), rs@),
                    ..st
                }
            } else {
                ScanState { rebuild: true, patches: Seq::empty(), ..st }
            },
        },
    }
}

/// The batch walk from position `i`, stopping early once a rebuild has
/// been asked for.
pub open spec fn scan_from(st: ScanState, changes: Seq<PathChange>, i: int) -> ScanState
    decreases changes.len() - i,
{
    if i >= changes.len() || st.rebuild {
        st
    } else {
        scan_from(scan_step(st, changes[i]), changes, i + 1)
    }
}

/// The walk of a whole batch against index contents `m`.
pub open spec fn scan(m: Map<u64, Seq<TemplateRecord>>, changes: Seq<PathChange>) -> ScanState {
    scan_from(
        ScanState { rebuild: false, map: m, patches: Seq::empty(), failed: Seq::empty() },
        changes,
        0,
    )
}

/// The hot-patch messages a record sequence goes out as.
pub open spec fn patch_messages(ps: Seq<TemplateRecord>) -> Seq<ReloadMessage> {
    ps.map_values(|t: TemplateRecord| ReloadMessage::HotPatch(t))
}

/// What one settled batch led to.
pub struct EventOutcome {
    /// The batch survived debouncing; everything below is `false`, zero
    /// and empty when it did not.
    pub accepted: bool,
    /// The caller must run the asset compiler now and report completion
    /// through `build_complete`.
    pub start_build: bool,
    /// How many hot-patch messages were published to the hub.
    pub patches_published: usize,
    /// The paths whose re-parse failed, in batch order.
    pub failed: Vec<u64>,
}

/// The coordination engine: debouncer, template index and build manager.
pub struct Engine {
    pub debouncer: Debouncer,
    pub index: FileMap,
    pub builds: BuildManager,
}

impl Engine {
    pub open spec fn wf(self) -> bool {
        &&& self.index.wf()
        &&& self.builds.wf()
    }

    /// Exactly what `handle_event` does, relating the engine, the hub,
    /// the clock reading, the batch and the outcome.
    pub open spec fn event_transition(
        pre: Engine,
        post: Engine,
        hpre: Hub,
        hpost: Hub,
        now: i64,
        changes: Seq<PathChange>,
        out: EventOutcome,
    ) -> bool {
        if !pre.debouncer.accepts(now) {
            &&& post == pre
            &&& hpost == hpre
            &&& !out.accepted
            &&& !out.start_build
            &&& out.patches_published == 0
            &&& out.failed@ == Seq::<u64>::empty()
        } else {
            let r = scan(pre.index@, changes);
            &&& out.accepted
            &&& post.debouncer == pre.debouncer.after(now)
            &&& post.index@ == r.map
            &&& out.failed@ == r.failed
            &&& if r.rebuild {
                &&& BuildManager::request_transition(pre.builds, post.builds, out.start_build)
                &&& hpost == hpre
                &&& out.patches_published == 0
            } else {
                &&& post.builds == pre.builds
                &&& !out.start_build
                &&& out.patches_published == r.patches.len()
                &&& hpost.cap() == hpre.cap()
                &&& hpost.n_subs() == hpre.n_subs()
                &&& forall|i: int|
                    0 <= i < hpre.n_subs() ==> hpost.sub(i) == deliver_all(
                        hpre.sub(i),
                        patch_messages(r.patches),
                        hpre.cap(),
                    )
            }
        }
    }

    pub fn new(reload_html: bool, start: i64) -> (e: Engine)
        ensures
            e.wf(),
            e.debouncer.last_accepted == start,
            e.index@ == Map::<u64, Seq<TemplateRecord>>::empty(),
            e.builds == (BuildManager {
                reload_html,
                in_flight: false,
                pending: false,
                started: 0,
                finished: 0,
            }),
    {
        Engine {
            debouncer: Debouncer::new(start),
            index: FileMap::new(),
            builds: BuildManager::new(reload_html),
        }
    }

    /// Process one settled batch of changes observed at clock reading
    /// `now`. A debounced batch changes nothing. Otherwise the batch is
    /// walked in order: the first non-source or structural change asks
    /// for a rebuild and ends the walk (accumulated patches are dropped —
    /// the full reload that follows subsumes them); a batch without one
    /// publishes its accumulated patches to the hub as a single burst.
    pub fn handle_event(&mut self, hub: &mut Hub, now: i64, changes: &Vec<PathChange>) -> (out:
        EventOutcome)
        requires
            old(self).wf(),
            old(hub).wf(),
            old(self).builds.started < u64::MAX,
            forall|k: int| 0 <= k < changes@.len() ==> change_wf(#[trigger] changes@[k]),
        ensures
            final(self).wf(),
            final(hub).wf(),
            final(self).builds.reload_html == old(self).builds.reload_html,
            Self::event_transition(
                *old(self),
                *final(self),
                *old(hub),
                *final(hub),
                now,
                changes@,
                out,
            ),
    {
        let accepted = self.debouncer.accept(now);
        if !accepted {
            return EventOutcome {
                accepted: false,
                start_build: false,
                patches_published: 0,
                failed: Vec::new(),
            };
        }
        let ghost st0 = ScanState {
            rebuild: false,
            map: old(self).index@,
            patches: Seq::empty(),
            failed: Seq::empty(),
        };
        let ghost mut cur = st0;
        let mut patches: Vec<TemplateRecord> = Vec::new();
        let mut failed: Vec<u64> = Vec::new();
        let mut rebuild = false;
        let mut i: usize = 0;
        let n = changes.len();
        while i < n && !rebuild
            invariant
                n == changes@.len(),
                0 <= i <= n,
                forall|k: int| 0 <= k < changes@.len() ==> change_wf(#[trigger] changes@[k]),
                scan_from(st0, changes@, 0) == scan_from(cur, changes@, i as int),
                cur.rebuild == rebuild,
                cur.map == self.index@,
                rebuild ==> cur.patches == Seq::<TemplateRecord>::empty(),
                !rebuild ==> cur.patches == patches@,
                cur.failed == failed@,
                self.index.wf(),
                self.builds == old(self).builds,
                self.debouncer == old(self).debouncer.after(now),
            decreases n - i,
        {
            let ghost prev = cur;
            let c = &changes[i];
            match &c.kind {
                ChangeKind::Other => {
                    rebuild = true;
                    proof {
                        cur = scan_step(prev, changes@[i as int]);
                    }
                },
                ChangeKind::SourceTemplates(None) => {
                    let outcome = self.index.update(c.path, None);
                    match outcome {
                        UpdateOutcome::ParseFailed => {
                            failed.push(c.path);
                        },
                        _ => {
                            proof {
                                assert(false);
                            }
                        },
                    }
                    proof {
                        cur = scan_step(prev, changes@[i as int]);
                    }
                },
                ChangeKind::SourceTemplates(Some(rs)) => {
                    let outcome = self.index.update(c.path, Some(rs));
                    match outcome {
                        UpdateOutcome::PatchSet(mut ch) => {
                            patches.append(&mut ch);
                        },
                        UpdateOutcome::NeedsFullRebuild => {
                            rebuild = true;
                        },
                        UpdateOutcome::ParseFailed => {
                            proof {
                                assert(false);
                            }
                        },
                    }
                    proof {
                        cur = scan_step(prev, changes@[i as int]);
                    }
                },
            }
            proof {
                assert(scan_from(prev, changes@, i as int) == scan_from(cur, changes@, i + 1));
            }
            i = i + 1;
        }
        if rebuild {
            proof {
                assert(scan_from(cur, changes@, i as int) == cur);
            }
            let starts = self.builds.request_rebuild();
            EventOutcome { accepted: true, start_build: starts, patches_published: 0, failed }
        } else {
            proof {
                assert(scan_from(cur, changes@, i as int) == cur);
            }
            let ghost r = scan_from(st0, changes@, 0);
            let ghost horig = *hub;
            let ghost pm = patch_messages(r.patches);
            let count = patches.len();
            let mut j: usize = 0;
            while j < count
                invariant
                    count == patches@.len(),
                    0 <= j <= count,
                    pm == patch_messages(patches@),
                    pm.len() == count,
                    hub.wf(),
                    hub.cap() == horig.cap(),
                    hub.n_subs() == horig.n_subs(),
                    horig.wf(),
                    forall|s: int|
                        0 <= s < horig.n_subs() ==> hub.sub(s) == deliver_all(
                            horig.sub(s),
                            pm.take(j as int),
                            horig.cap(),
                        ),
                decreases count - j,
            {
                let ghost hprev = *hub;
                hub.publish(ReloadMessage::HotPatch(patches[j]));
                proof {
                    assert(pm.take(j + 1).drop_last() =~= pm.take(j as int));
                    assert(pm.take(j + 1).last() == pm[j as int]);
                    assert(pm[j as int] == ReloadMessage::HotPatch(patches@[j as int]));
                    assert forall|s: int| 0 <= s < horig.n_subs() implies hub.sub(s) == deliver_all(
                        horig.sub(s),
                        pm.take(j + 1),
                        horig.cap(),
                    ) by {
                        assert(hub.sub(s) == deliver(hprev.sub(s), pm[j as int], hprev.cap()));
                        assert(deliver_all(horig.sub(s), pm.take(j + 1), horig.cap()) == deliver(
                            deliver_all(horig.sub(s), pm.take(j as int), horig.cap()),
                            pm[j as int],
                            horig.cap(),
                        ));
                    }
                }
                j = j + 1;
            }
            proof {
                assert(pm.take(count as int) =~= pm);
            }
            EventOutcome {
                accepted: true,
                start_build: false,
                patches_published: count,
                failed,
            }
        }
    }

    /// Process one settled batch against the machine clock, handing back
    /// the clock reading used (for reporting) beside the outcome.
    pub fn handle_event_clock(&mut self, hub: &mut Hub, changes: &Vec<PathChange>) -> (r: (
        i64,
        EventOutcome,
    ))
        requires
            old(self).wf(),
            old(hub).wf(),
            old(self).builds.started < u64::MAX,
            forall|k: int| 0 <= k < changes@.len() ==> change_wf(#[trigger] changes@[k]),
        ensures
            final(self).wf(),
            final(hub).wf(),
            Self::event_transition(
                *old(self),
                *final(self),
                *old(hub),
                *final(hub),
                r.0,
                changes@,
                r.1,
            ),
    {
        let now = now_seconds();
        let out = self.handle_event(hub, now, changes);
        (now, out)
    }

    /// Record that the running rebuild finished with the compiler's
    /// result. Success publishes one full-reload message to the hub;
    /// failure publishes nothing, so clients keep their last good state.
    /// The returned action also says whether a trailing trigger demands
    /// one more rebuild now.
    pub fn build_complete(&mut self, hub: &mut Hub, outcome: &Result<BuildResult, BuildError>) -> (
        act: CompletionAction)
        requires
            old(self).wf(),
            old(hub).wf(),
            old(self).builds.in_flight,
            old(self).builds.started < u64::MAX,
        ensures
            final(self).wf(),
            final(hub).wf(),
            final(self).index == old(self).index,
            final(self).debouncer == old(self).debouncer,
            BuildManager::complete_transition(
                old(self).builds,
                final(self).builds,
                act,
                outcome is Ok,
            ),
            outcome is Ok ==> final(hub).cap() == old(hub).cap() && final(hub).n_subs() == old(
                hub,
            ).n_subs() && forall|i: int|
                0 <= i < old(hub).n_subs() ==> final(hub).sub(i) == deliver(
                    old(hub).sub(i),
                    ReloadMessage::FullReload,
                    old(hub).cap(),
                ),
            outcome is Err ==> *final(hub) == *old(hub),
    {
        let act = self.builds.complete(outcome.is_ok());
        if act.publish_full_reload {
            hub.publish(ReloadMessage::FullReload);
        }
        act
    }

    /// Resynchronize the index entry for one file after a completed
    /// rebuild has re-read it.
    pub fn resync(&mut self, path: u64, records: &Vec<TemplateRecord>)
        requires
            old(self).wf(),
            wf_records(path, records@),
        ensures
            final(self).wf(),
            final(self).index@ == old(self).index@.insert(path, records@),
            final(self).builds == old(self).builds,
            final(self).debouncer == old(self).debouncer,
    {
        self.index.refresh(path, records);
    }
}

/// Parse-failure isolation: a failed parse only records its path — the
/// index entry it would have replaced is untouched, and any later change
/// of the batch is treated exactly as if the failure had not happened.
pub proof fn lemma_parse_failure_isolated(st: ScanState, c1: PathChange, c2: PathChange)
    requires
        c1.kind matches ChangeKind::SourceTemplates(None),
    ensures
        scan_step(st, c1) == (ScanState { failed: st.failed.push(c1.path), ..st }),
        scan_step(scan_step(st, c1), c2).map == scan_step(st, c2).map,
        scan_step(scan_step(st, c1), c2).patches == scan_step(st, c2).patches,
        scan_step(scan_step(st, c1), c2).rebuild == scan_step(st, c2).rebuild,
{
}

} // verus!
