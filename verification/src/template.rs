//! Incremental index of the structural UI templates each source file
//! defines.
//!
//! A template is identified by its source file and its ordinal within that
//! file. Its parsed form is carried as two plain values computed by the
//! parser at the boundary: a structural signature of the tree shape, and a
//! fingerprint of the patchable literal content. Two templates with the
//! same signature differ at most in ways the hot-patch protocol can
//! express; a signature change, or a template added or removed, is a
//! structural change that only a full rebuild can propagate.

use std::collections::HashMap;
use vstd::prelude::*;
use vstd::std_specs::hash::group_hash_axioms;

verus! {

broadcast use group_hash_axioms;

/// One parsed template: its identity (source file, ordinal) and the two
/// plain values standing for its parsed structure.
#[derive(Clone, Copy, PartialEq, Eq, Structural, Debug)]
pub struct TemplateRecord {
    /// Interned id of the source file the template comes from.
    pub path: u64,
    /// Position of the template within its file.
    pub ordinal: u64,
    /// Structural signature of the parsed tree: equal signatures mean the
    /// trees differ at most in patchable literal content.
    pub shape: u64,
    /// Fingerprint of the patchable literal content.
    pub content: u64,
}

/// A well-formed record sequence for a file: each record names that file
/// and carries its own position as ordinal.
pub open spec fn wf_records(path: u64, rs: Seq<TemplateRecord>) -> bool {
    forall|i: int| 0 <= i < rs.len() ==> rs[i].path == path && rs[i].ordinal == i
}

/// The record sequence stored for `path`, or the empty sequence when the
/// index holds no entry for it.
pub open spec fn stored(m: Map<u64, Seq<TemplateRecord>>, path: u64) -> Seq<TemplateRecord> {
    if m.contains_key(path) {
        m[path]
    } else {
        Seq::empty()
    }
}

/// A re-parse maps one-to-one onto the stored sequence with only
/// patchable differences: same length, same structural signature at every
/// position.
pub open spec fn patchable(olds: Seq<TemplateRecord>, news: Seq<TemplateRecord>) -> bool {
    &&& olds.len() == news.len()
    &&& forall|i: int| 0 <= i < news.len() ==> olds[i].shape == news[i].shape
}

/// The new records whose literal content differs from the stored record at
/// the same position, in file order.
pub open spec fn changed_records(
    olds: Seq<TemplateRecord>,
    news: Seq<TemplateRecord>,
) -> Seq<TemplateRecord>
    recommends
        olds.len() == news.len(),
    decreases news.len(),
{
    if news.len() == 0 {
        Seq::empty()
    } else {
        let prefix = changed_records(olds.drop_last(), news.drop_last());
        if news.last().content != olds[news.len() - 1].content || news.last().shape != olds[
            news.len() - 1
        ].shape {
            prefix.push(news.last())
        } else {
            prefix
        }
    }
}

/// A re-parse in which nothing changed yields no patch records.
pub proof fn lemma_no_changes_no_patches(olds: Seq<TemplateRecord>, news: Seq<TemplateRecord>)
    requires
        olds.len() == news.len(),
        forall|i: int| 0 <= i < news.len() ==> news[i] == olds[i],
    ensures
        changed_records(olds, news) == Seq::<TemplateRecord>::empty(),
    decreases news.len(),
{
    if news.len() > 0 {
        lemma_no_changes_no_patches(olds.drop_last(), news.drop_last());
    }
}

/// Patch correctness, the general form: when exactly one template of a
/// patchable re-parse differs from its stored counterpart, the patch set
/// is exactly that one new record — every other template contributes
/// nothing.
pub proof fn lemma_patch_set_single_change(
    olds: Seq<TemplateRecord>,
    news: Seq<TemplateRecord>,
    j: int,
)
    requires
        olds.len() == news.len(),
        0 <= j < news.len(),
        news[j].content != olds[j].content || news[j].shape != olds[j].shape,
        forall|i: int| 0 <= i < news.len() && i != j ==> news[i] == olds[i],
    ensures
        changed_records(olds, news) == seq![news[j]],
    decreases news.len(),
{
    if j == news.len() - 1 {
        lemma_no_changes_no_patches(olds.drop_last(), news.drop_last());
        assert(changed_records(olds, news) =~= seq![news[j]]);
    } else {
        lemma_patch_set_single_change(olds.drop_last(), news.drop_last(), j);
    }
}

/// Outcome of re-indexing one changed source file.
pub enum UpdateOutcome {
    /// Every template mapped onto a stored one with only patchable
    /// differences; the payload holds exactly the changed records.
    PatchSet(Vec<TemplateRecord>),
    /// A template was added, removed, or changed structurally: the change
    /// is beyond the patch protocol and a full rebuild must propagate it.
    NeedsFullRebuild,
    /// The file did not parse; the stored entry is left untouched.
    ParseFailed,
}

/// Per-file map from interned path to the ordered templates the file
/// defined at its last successful parse.
pub struct FileMap {
    files: HashMap<u64, Vec<TemplateRecord>>,
}

impl FileMap {
    /// Abstract contents: interned path to the stored record sequence.
    pub closed spec fn view(&self) -> Map<u64, Seq<TemplateRecord>> {
        Map::new(
            |path: u64| self.files@.contains_key(path),
            |path: u64| self.files@[path]@,
        )
    }

    /// Every stored sequence is well formed for its file.
    pub open spec fn wf(&self) -> bool {
        forall|path: u64|
            self@.contains_key(path) ==> wf_records(path, #[trigger] self@[path])
    }

    pub fn new() -> (m: FileMap)
        ensures
            m@ == Map::<u64, Seq<TemplateRecord>>::empty(),
            m.wf(),
    {
        let files: HashMap<u64, Vec<TemplateRecord>> = HashMap::new();
        let m = FileMap { files };
        proof {
            assert(m@ =~= Map::<u64, Seq<TemplateRecord>>::empty());
        }
        m
    }

    /// The stored records for one file, if any.
    pub fn records_of(&self, path: u64) -> (r: Option<&Vec<TemplateRecord>>)
        ensures
            match r {
                Some(rs) => self@.contains_key(path) && rs@ == self@[path],
                None => !self@.contains_key(path),
            },
    {
        self.files.get(&path)
    }

    /// Re-index one file from the outcome of its re-parse (`None`: the
    /// parse failed). Patchable differences replace the stored sequence
    /// and come back as the exact set of changed records; a structural
    /// change or a parse failure leaves the stored state untouched.
    pub fn update(&mut self, path: u64, parsed: Option<&Vec<TemplateRecord>>) -> (outcome:
        UpdateOutcome)
        requires
            old(self).wf(),
            parsed matches Some(rs) ==> wf_records(path, rs@),
        ensures
            final(self).wf(),
            match outcome {
                UpdateOutcome::ParseFailed => parsed is None && final(self)@ == old(self)@,
                UpdateOutcome::NeedsFullRebuild => {
                    &&& parsed matches Some(rs) && !patchable(stored(old(self)@, path), rs@)
                    &&& final(self)@ == old(self)@
                },
                UpdateOutcome::PatchSet(changed) => {
                    &&& parsed matches Some(rs) && patchable(stored(old(self)@, path), rs@)
                        && final(self)@ == old(self)@.insert(path, rs@) && changed@ == changed_records(
                        stored(old(self)@, path),
                        rs@,
                    )
                },
            },
    {
        match parsed {
            None => UpdateOutcome::ParseFailed,
            Some(rs) => {
                let olds_opt = self.files.get(&path);
                match olds_opt {
                    None => {
                        if rs.len() == 0 {
                            // An absent entry and an empty parse both hold
                            // no templates: nothing changed.
                            let stored_rs = copy_records(rs);
                            self.files.insert(path, stored_rs);
                            proof {
                                assert(self@ =~= old(self)@.insert(path, rs@));
                                reveal_with_fuel(changed_records, 1);
                            }
                            UpdateOutcome::PatchSet(Vec::new())
                        } else {
                            UpdateOutcome::NeedsFullRebuild
                        }
                    },
                    Some(olds) => {
                        if !shapes_match(olds, rs) {
                            proof {
                                assert(self@ == old(self)@);
                            }
                            UpdateOutcome::NeedsFullRebuild
                        } else {
                            let changed = collect_changed(olds, rs);
                            let stored_rs = copy_records(rs);
                            self.files.insert(path, stored_rs);
                            proof {
                                assert(self@ =~= old(self)@.insert(path, rs@));
                            }
                            UpdateOutcome::PatchSet(changed)
                        }
                    },
                }
            },
        }
    }

    /// Overwrite the stored sequence for one file: the resynchronization
    /// step after a full rebuild has re-read the file.
    pub fn refresh(&mut self, path: u64, records: &Vec<TemplateRecord>)
        requires
            old(self).wf(),
            wf_records(path, records@),
        ensures
            final(self).wf(),
            final(self)@ == old(self)@.insert(path, records@),
    {
        let stored_rs = copy_records(records);
        self.files.insert(path, stored_rs);
        proof {
            assert(self@ =~= old(self)@.insert(path, records@));
        }
    }
}

/// Element-wise copy of a record sequence.
fn copy_records(rs: &Vec<TemplateRecord>) -> (r: Vec<TemplateRecord>)
    ensures
        r@ == rs@,
{
    let mut r: Vec<TemplateRecord> = Vec::new();
    let mut i: usize = 0;
    while i < rs.len()
        invariant
            i <= rs.len(),
            r@ == rs@.take(i as int),
        decreases rs.len() - i,
    {
        r.push(rs[i]);
        proof {
            assert(r@ =~= rs@.take(i + 1));
        }
        i = i + 1;
    }
    proof {
        assert(rs@.take(rs@.len() as int) =~= rs@);
    }
    r
}

/// Whether a re-parse is patchable against the stored sequence.
fn shapes_match(olds: &Vec<TemplateRecord>, news: &Vec<TemplateRecord>) -> (r: bool)
    ensures
        r == patchable(olds@, news@),
{
    if olds.len() != news.len() {
        return false;
    }
    let mut i: usize = 0;
    while i < news.len()
        invariant
            olds@.len() == news@.len(),
            i <= news.len(),
            forall|j: int| 0 <= j < i ==> olds@[j].shape == news@[j].shape,
        decreases news.len() - i,
    {
        if olds[i].shape != news[i].shape {
            return false;
        }
        i = i + 1;
    }
    true
}

/// The changed records of a patchable re-parse, in file order.
fn collect_changed(olds: &Vec<TemplateRecord>, news: &Vec<TemplateRecord>) -> (r: Vec<
    TemplateRecord,
>)
    requires
        patchable(olds@, news@),
    ensures
        r@ == changed_records(olds@, news@),
{
    let mut r: Vec<TemplateRecord> = Vec::new();
    let mut i: usize = 0;
    while i < news.len()
        invariant
            olds@.len() == news@.len(),
            i <= news.len(),
            r@ == changed_records(olds@.take(i as int), news@.take(i as int)),
        decreases news.len() - i,
    {
        let ghost pre = r@;
        if news[i].content != olds[i].content || news[i].shape != olds[i].shape {
            r.push(news[i]);
        }
        proof {
            let t1 = olds@.take(i + 1);
            let t2 = news@.take(i + 1);
            assert(t1.drop_last() =~= olds@.take(i as int));
            assert(t2.drop_last() =~= news@.take(i as int));
            assert(t2.last() == news@[i as int]);
            assert(t1[t2.len() - 1] == olds@[i as int]);
        }
        i = i + 1;
    }
    proof {
        assert(olds@.take(olds@.len() as int) =~= olds@);
        assert(news@.take(news@.len() as int) =~= news@);
    }
    r
}

} // verus!
