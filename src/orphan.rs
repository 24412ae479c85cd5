use vstd::prelude::*;

use crate::step::{destructive, runs, Action, Op, Outcome, Step};
use crate::types::{WorkspaceError, WorkspaceManager};

verus! {

/// Where an orphan sweep stands. `base` indexes `bases`, `next` indexes
/// `candidates` and `child` indexes `children`.
pub enum SweepPhase {
    /// Waiting for the subdirectories of `bases[base]`.
    Listing { base: usize },
    /// Waiting for the registry's answer on `candidates[next]`.
    Checking { base: usize, next: usize },
    /// Waiting for the subdirectories of the orphan `candidates[next]`.
    ListingOrphan { base: usize, next: usize },
    /// Waiting for the cleanup of `children[child]` inside the orphan.
    CleaningChild { base: usize, next: usize, child: usize },
    /// Waiting for the removal of the orphan `candidates[next]`.
    /// `direct` tells that the orphan could not be listed.
    RemovingOrphan { base: usize, next: usize, direct: bool },
    Finished,
}

/// A sweep of the workspace base directories that removes every workspace
/// directory the registry does not know. Each step is best effort: no
/// failure stops the sweep. An orphan that could not be listed is removed
/// directly, and when that removal fails too its failure is kept in
/// `failures`.
pub struct OrphanSweep {
    pub bases: Vec<String>,
    pub candidates: Vec<String>,
    pub children: Vec<String>,
    pub failures: Vec<WorkspaceError>,
    pub phase: SweepPhase,
}

/// One step of an orphan sweep: from `pre` with `outcome`, to `post`,
/// asking for `r`.
pub open spec fn sweep_step(
    pre: OrphanSweep,
    post: OrphanSweep,
    outcome: Outcome,
    r: Step<()>,
) -> bool {
    &&& post.wf()
    &&& post.bases == pre.bases
    &&& !(pre.phase is RemovingOrphan) ==> post.failures == pre.failures
    &&& match pre.phase {
        SweepPhase::Listing { base } => match outcome {
            Outcome::Listed(v) => {
                &&& post.candidates@ == v@
                &&& if v@.len() > 0 {
                    &&& runs(r, Op::IsRegistered { path: v@[0]@ })
                    &&& post.phase == (SweepPhase::Checking { base, next: 0 })
                } else {
                    post.after_base(&post, base as int, r)
                }
            },
            _ => pre.after_base(&post, base as int, r),
        },
        SweepPhase::Checking { base, next } => if outcome == Outcome::Registered(false) {
            &&& runs(r, Op::ListSubdirectories { path: pre.candidates@[next as int]@ })
            &&& post.phase == (SweepPhase::ListingOrphan { base, next })
            &&& post.candidates == pre.candidates
        } else {
            pre.after_candidate(&post, base as int, next as int, r)
        },
        SweepPhase::ListingOrphan { base, next } => {
            &&& post.candidates == pre.candidates
            &&& if outcome matches Outcome::Listed(v) && v@.len() > 0 {
                &&& post.children@ == outcome->Listed_0@
                &&& runs(r, Op::CleanupSuspectedWorktree { path: post.children@[0]@ })
                &&& post.phase == (SweepPhase::CleaningChild { base, next, child: 0 })
            } else {
                &&& runs(r, Op::RemoveDirAll { path: pre.candidates@[next as int]@ })
                &&& post.phase == (SweepPhase::RemovingOrphan {
                    base,
                    next,
                    direct: !(outcome is Listed),
                })
            }
        },
        SweepPhase::CleaningChild { base, next, child } => {
            &&& post.candidates == pre.candidates
            &&& post.children == pre.children
            &&& if child + 1 < pre.children@.len() {
                &&& runs(r, Op::CleanupSuspectedWorktree { path: pre.children@[child + 1]@ })
                &&& post.phase matches SweepPhase::CleaningChild { base: b2, next: n2, child: c2 }
                    && b2 == base && n2 == next && c2 == child + 1
            } else {
                &&& runs(r, Op::RemoveDirAll { path: pre.candidates@[next as int]@ })
                &&& post.phase == (SweepPhase::RemovingOrphan { base, next, direct: false })
            }
        },
        SweepPhase::RemovingOrphan { base, next, direct } => {
            &&& pre.after_candidate(&post, base as int, next as int, r)
            &&& post.failures@ == if direct && outcome is Failed {
                pre.failures@.push(WorkspaceError::Io(outcome->Failed_0))
            } else {
                pre.failures@
            }
        },
        SweepPhase::Finished => false,
    }
}

impl OrphanSweep {
    pub open spec fn wf(&self) -> bool {
        &&& 1 <= self.bases@.len() <= 2
        &&& match self.phase {
            SweepPhase::Listing { base } => base < self.bases@.len(),
            SweepPhase::Checking { base, next } => base < self.bases@.len() && next
                < self.candidates@.len(),
            SweepPhase::ListingOrphan { base, next } => base < self.bases@.len() && next
                < self.candidates@.len(),
            SweepPhase::CleaningChild { base, next, child } => base < self.bases@.len() && next
                < self.candidates@.len() && child < self.children@.len(),
            SweepPhase::RemovingOrphan { base, next, .. } => base < self.bases@.len() && next
                < self.candidates@.len(),
            SweepPhase::Finished => true,
        }
    }

    /// What follows once base directory `base` is done: the next base
    /// directory is listed, or the sweep ends.
    pub open spec fn after_base(&self, post: &Self, base: int, r: Step<()>) -> bool {
        if base + 1 < self.bases@.len() {
            &&& runs(r, Op::ListSubdirectories { path: self.bases@[base + 1]@ })
            &&& post.phase == (SweepPhase::Listing { base: (base + 1) as usize })
        } else {
            &&& r is Done
            &&& post.phase is Finished
        }
    }

    /// What follows once candidate `next` of base directory `base` is done:
    /// the registry is asked about the next candidate, or the base is done.
    pub open spec fn after_candidate(&self, post: &Self, base: int, next: int, r: Step<()>) -> bool {
        if next + 1 < self.candidates@.len() {
            &&& runs(r, Op::IsRegistered { path: self.candidates@[next + 1]@ })
            &&& post.phase == (SweepPhase::Checking { base: base as usize, next: (next + 1) as usize })
            &&& post.candidates == self.candidates
        } else {
            self.after_base(post, base, r)
        }
    }

    fn next_base(&mut self, base: usize) -> (r: Step<()>)
        requires
            old(self).wf(),
            base < old(self).bases@.len(),
        ensures
            final(self).wf(),
            final(self).bases == old(self).bases,
            final(self).candidates == old(self).candidates,
            final(self).children == old(self).children,
            final(self).failures == old(self).failures,
            old(self).after_base(final(self), base as int, r),
    {
        if base + 1 < self.bases.len() {
            self.phase = SweepPhase::Listing { base: base + 1 };
            Step::Run(Action::ListSubdirectories { path: self.bases[base + 1].clone() })
        } else {
            self.phase = SweepPhase::Finished;
            Step::Done(())
        }
    }

    fn next_candidate(&mut self, base: usize, next: usize) -> (r: Step<()>)
        requires
            old(self).wf(),
            base < old(self).bases@.len(),
            next < old(self).candidates@.len(),
        ensures
            final(self).wf(),
            final(self).bases == old(self).bases,
            final(self).candidates == old(self).candidates,
            final(self).children == old(self).children,
            final(self).failures == old(self).failures,
            old(self).after_candidate(final(self), base as int, next as int, r),
    {
        if next < self.candidates.len() - 1 {
            self.phase = SweepPhase::Checking { base, next: next + 1 };
            Step::Run(Action::IsRegistered { path: self.candidates[next + 1].clone() })
        } else {
            self.next_base(base)
        }
    }

    fn remove_orphan(&mut self, base: usize, next: usize, direct: bool) -> (r: Step<()>)
        requires
            old(self).wf(),
            base < old(self).bases@.len(),
            next < old(self).candidates@.len(),
        ensures
            final(self).wf(),
            final(self).bases == old(self).bases,
            final(self).candidates == old(self).candidates,
            final(self).children == old(self).children,
            final(self).failures == old(self).failures,
            runs(r, Op::RemoveDirAll { path: old(self).candidates@[next as int]@ }),
            final(self).phase == (SweepPhase::RemovingOrphan { base, next, direct }),
    {
        self.phase = SweepPhase::RemovingOrphan { base, next, direct };
        Step::Run(Action::RemoveDirAll { path: self.candidates[next].clone() })
    }

    /// Takes the outcome of the last action and says what comes next.
    ///
    /// A base directory that cannot be listed is skipped. A subdirectory is
    /// touched only when the registry answers that it is not a live
    /// workspace: then each directory inside it is cleaned up as a suspected
    /// worktree and it is removed; when it cannot be listed it is removed
    /// directly. Only a removal or cleanup asked for in this way is
    /// destructive.
    pub fn resume(&mut self, outcome: Outcome) -> (r: Step<()>)
        requires
            old(self).wf(),
            !(old(self).phase is Finished),
        ensures
            sweep_step(*old(self), *final(self), outcome, r),
    {
        match self.phase {
            SweepPhase::Listing { base } => {
                match outcome {
                    Outcome::Listed(v) => {
                        self.candidates = v;
                        if self.candidates.len() > 0 {
                            self.phase = SweepPhase::Checking { base, next: 0 };
                            Step::Run(Action::IsRegistered { path: self.candidates[0].clone() })
                        } else {
                            self.next_base(base)
                        }
                    },
                    _ => self.next_base(base),
                }
            },
            SweepPhase::Checking { base, next } => {
                if let Outcome::Registered(false) = outcome {
                    self.phase = SweepPhase::ListingOrphan { base, next };
                    Step::Run(Action::ListSubdirectories { path: self.candidates[next].clone() })
                } else {
                    self.next_candidate(base, next)
                }
            },
            SweepPhase::ListingOrphan { base, next } => {
                match outcome {
                    Outcome::Listed(v) => {
                        if v.len() > 0 {
                            self.children = v;
                            self.phase = SweepPhase::CleaningChild { base, next, child: 0 };
                            Step::Run(Action::CleanupSuspectedWorktree { path: self.children[0].clone() })
                        } else {
                            self.remove_orphan(base, next, false)
                        }
                    },
                    _ => self.remove_orphan(base, next, true),
                }
            },
            SweepPhase::CleaningChild { base, next, child } => {
                if child < self.children.len() - 1 {
                    self.phase = SweepPhase::CleaningChild { base, next, child: child + 1 };
                    Step::Run(Action::CleanupSuspectedWorktree { path: self.children[child + 1].clone() })
                } else {
                    self.remove_orphan(base, next, false)
                }
            },
            SweepPhase::RemovingOrphan { base, next, direct } => {
                if direct {
                    if let Outcome::Failed(m) = outcome {
                        self.failures.push(WorkspaceError::Io(m));
                    }
                }
                self.next_candidate(base, next)
            },
            SweepPhase::Finished => Step::Done(()),
        }
    }
}

impl WorkspaceManager {
    /// Starts a sweep of the default base directory and, when it differs,
    /// of the configured one. A disabled sweep ends at once and touches
    /// nothing.
    pub fn cleanup_orphan_workspaces(&self, disabled: bool) -> (r: (OrphanSweep, Step<()>))
        ensures
            r.0.wf(),
            r.0.failures@.len() == 0,
            disabled ==> r.1 is Done && r.0.phase is Finished,
            !disabled ==> {
                &&& r.0.bases@.len() >= 1
                &&& r.0.bases@[0]@ == self.default_base_dir@
                &&& (self.base_dir() != self.default_base_dir@ ==> r.0.bases@.len() == 2 && r.0.bases@[1]@ == self.base_dir())
                &&& (self.base_dir() == self.default_base_dir@ ==> r.0.bases@.len() == 1)
                &&& runs(r.1, Op::ListSubdirectories { path: self.default_base_dir@ })
                &&& r.0.phase == (SweepPhase::Listing { base: 0 })
            },
    {
        let default_dir = self.default_base_dir.clone();
        let current_dir = self.get_workspace_base_dir();
        let same = default_dir == current_dir;
        let first = default_dir.clone();
        let mut bases = Vec::new();
        bases.push(default_dir);
        if !same {
            bases.push(current_dir);
        }
        if disabled {
            (OrphanSweep { bases, candidates: Vec::new(), children: Vec::new(), failures: Vec::new(), phase: SweepPhase::Finished }, Step::Done(()))
        } else {
            (OrphanSweep { bases, candidates: Vec::new(), children: Vec::new(), failures: Vec::new(), phase: SweepPhase::Listing { base: 0 } }, Step::Run(Action::ListSubdirectories { path: first }))
        }
    }
}

/// An orphan sweep touches only what the registry disowns. A step that
/// asks for a removal or cleanup removes the candidate directory under
/// treatment or cleans up a directory listed inside it; and a candidate
/// comes under treatment only through the registry's answer that it is not
/// registered. A registered directory, or one the registry could not answer
/// for, is passed over with no removal.
pub proof fn lemma_sweep_touches_only_orphans(
    pre: OrphanSweep,
    post: OrphanSweep,
    outcome: Outcome,
    r: Step<()>,
)
    requires
        pre.wf(),
        !(pre.phase is Finished),
        sweep_step(pre, post, outcome, r),
    ensures
        r is Run && destructive(r->Run_0@) ==> {
            ||| post.phase matches SweepPhase::CleaningChild { child, .. }
                && r->Run_0@ == (Op::CleanupSuspectedWorktree { path: post.children@[child as int]@ })
            ||| post.phase matches SweepPhase::RemovingOrphan { next, .. }
                && r->Run_0@ == (Op::RemoveDirAll { path: post.candidates@[next as int]@ })
        },
        post.phase is ListingOrphan ==> (pre.phase is Checking && outcome == Outcome::Registered(false))
            && post.candidates == pre.candidates,
        pre.phase is Checking && outcome != Outcome::Registered(false) ==> !(r is Run && destructive(r->Run_0@))
            && (post.phase is Checking || post.phase is Listing || post.phase is Finished),
{
}

/// The index of the candidate that a phase is treating as an orphan.
pub open spec fn orphan_under_treatment(p: SweepPhase) -> Option<usize> {
    match p {
        SweepPhase::ListingOrphan { next, .. } => Some(next),
        SweepPhase::CleaningChild { next, .. } => Some(next),
        SweepPhase::RemovingOrphan { next, .. } => Some(next),
        _ => None,
    }
}

/// At step `j` of a sweep run the registry answered that candidate `n` is
/// not registered.
pub open spec fn disowned_at(s: Seq<OrphanSweep>, o: Seq<Outcome>, j: int, n: usize) -> bool {
    &&& s[j].phase matches SweepPhase::Checking { next, .. } && next == n
    &&& o[j] == Outcome::Registered(false)
}

/// At step `m` of a sweep run, candidate `n` was being listed as an orphan
/// and the listing came back as `children`.
pub open spec fn listed_at(
    s: Seq<OrphanSweep>,
    o: Seq<Outcome>,
    m: int,
    n: usize,
    children: Seq<String>,
) -> bool {
    &&& s[m].phase matches SweepPhase::ListingOrphan { next, .. } && next == n
    &&& o[m] matches Outcome::Listed(v) && v@ == children
}

/// What a sweep run has established by state `i`: a candidate under
/// treatment was disowned by the registry at an earlier step, and children
/// being cleaned up are the listing of that candidate.
proof fn lemma_sweep_origin(s: Seq<OrphanSweep>, o: Seq<Outcome>, r: Seq<Step<()>>, i: int)
    requires
        s.len() == r.len() + 1,
        o.len() == r.len(),
        0 <= i < s.len(),
        orphan_under_treatment(s[0].phase) is None,
        forall|k: int| 0 <= k < r.len() ==> sweep_step(s[k], s[k + 1], o[k], #[trigger] r[k]),
    ensures
        orphan_under_treatment(s[i].phase) matches Some(n) ==> exists|j: int|
            0 <= j < i && #[trigger] disowned_at(s, o, j, n) && s[j].candidates == s[i].candidates,
        s[i].phase matches SweepPhase::CleaningChild { next, .. } ==> exists|m: int|
            0 <= m < i && #[trigger] listed_at(s, o, m, next, s[i].children@),
    decreases i,
{
    if i > 0 {
        lemma_sweep_origin(s, o, r, i - 1);
        assert(sweep_step(s[i - 1], s[i], o[i - 1], r[i - 1]));
        if orphan_under_treatment(s[i].phase) is Some {
            let n = orphan_under_treatment(s[i].phase)->Some_0;
            if s[i - 1].phase is Checking {
                assert(disowned_at(s, o, i - 1, n));
            } else {
                let j = choose|j: int|
                    0 <= j < i - 1 && #[trigger] disowned_at(s, o, j, n) && s[j].candidates
                        == s[i - 1].candidates;
                assert(disowned_at(s, o, j, n));
            }
        }
        if s[i].phase is CleaningChild {
            let n = s[i].phase->CleaningChild_next;
            if s[i - 1].phase is ListingOrphan {
                assert(listed_at(s, o, i - 1, n, s[i].children@));
            } else {
                let m = choose|m: int|
                    0 <= m < i - 1 && #[trigger] listed_at(s, o, m, n, s[i - 1].children@);
                assert(listed_at(s, o, m, n, s[i].children@));
            }
        }
    }
}

/// Over a whole sweep, a directory that the registry does not disown is
/// never touched. Every removal or cleanup that a sweep asks for is either
/// the removal of a candidate for which the registry answered, at an
/// earlier step, that it is not registered, or the cleanup of an entry of
/// the listing of such a candidate.
pub proof fn lemma_sweep_run_touches_only_disowned(
    s: Seq<OrphanSweep>,
    o: Seq<Outcome>,
    r: Seq<Step<()>>,
)
    requires
        s.len() == r.len() + 1,
        o.len() == r.len(),
        s[0].wf(),
        orphan_under_treatment(s[0].phase) is None,
        forall|k: int| 0 <= k < r.len() ==> sweep_step(s[k], s[k + 1], o[k], #[trigger] r[k]),
    ensures
        forall|i: int|
            0 <= i < r.len() && #[trigger] r[i] is Run && destructive(r[i]->Run_0@) ==> {
                ||| exists|j: int, n: usize|
                    0 <= j <= i && #[trigger] disowned_at(s, o, j, n) && r[i]->Run_0@
                        == (Op::RemoveDirAll { path: s[j].candidates@[n as int]@ })
                ||| exists|j: int, m: int, n: usize, c: int|
                    0 <= j <= i && 0 <= m <= i && #[trigger] disowned_at(s, o, j, n) && #[trigger] listed_at(
                        s,
                        o,
                        m,
                        n,
                        s[i + 1].children@,
                    ) && 0 <= c < s[i + 1].children@.len() && r[i]->Run_0@
                        == (Op::CleanupSuspectedWorktree { path: (#[trigger] s[i + 1].children@[c])@ })
            },
{
    assert forall|i: int|
        0 <= i < r.len() && #[trigger] r[i] is Run && destructive(r[i]->Run_0@) implies {
            ||| exists|j: int, n: usize|
                0 <= j <= i && #[trigger] disowned_at(s, o, j, n) && r[i]->Run_0@
                    == (Op::RemoveDirAll { path: s[j].candidates@[n as int]@ })
            ||| exists|j: int, m: int, n: usize, c: int|
                0 <= j <= i && 0 <= m <= i && #[trigger] disowned_at(s, o, j, n) && #[trigger] listed_at(
                    s,
                    o,
                    m,
                    n,
                    s[i + 1].children@,
                ) && 0 <= c < s[i + 1].children@.len() && r[i]->Run_0@
                    == (Op::CleanupSuspectedWorktree { path: (#[trigger] s[i + 1].children@[c])@ })
        } by {
        assert(sweep_step(s[i], s[i + 1], o[i], r[i]));
        if i > 0 {
            assert(sweep_step(s[i - 1], s[i], o[i - 1], r[i - 1]));
        }
        lemma_sweep_touches_only_orphans(s[i], s[i + 1], o[i], r[i]);
        lemma_sweep_origin(s, o, r, i + 1);
        let n = orphan_under_treatment(s[i + 1].phase)->Some_0;
        let j = choose|j: int|
            0 <= j < i + 1 && #[trigger] disowned_at(s, o, j, n) && s[j].candidates
                == s[i + 1].candidates;
        assert(disowned_at(s, o, j, n));
        if s[i + 1].phase is CleaningChild {
            let m = choose|m: int|
                0 <= m < i + 1 && #[trigger] listed_at(s, o, m, n, s[i + 1].children@);
            let c = s[i + 1].phase->CleaningChild_child as int;
            assert(listed_at(s, o, m, n, s[i + 1].children@));
            assert(r[i]->Run_0@ == (Op::CleanupSuspectedWorktree { path: s[i + 1].children@[c]@ }));
        }
    }
}

/// After the registry disowned candidate `n` at step `j`, by state `k` the
/// sweep has either asked for the candidate's removal or is still treating
/// it, the removal being asked for as it enters its last phase.
proof fn lemma_disowned_pending(
    s: Seq<OrphanSweep>,
    o: Seq<Outcome>,
    r: Seq<Step<()>>,
    j: int,
    n: usize,
    k: int,
)
    requires
        s.len() == r.len() + 1,
        o.len() == r.len(),
        0 <= j < r.len(),
        j < k < s.len(),
        disowned_at(s, o, j, n),
        forall|i: int| 0 <= i < r.len() ==> sweep_step(s[i], s[i + 1], o[i], #[trigger] r[i]),
    ensures
        ({
            let removal = Op::RemoveDirAll { path: s[j].candidates@[n as int]@ };
            ||| exists|i: int| j < i < k && runs(#[trigger] r[i], removal)
            ||| {
                &&& orphan_under_treatment(s[k].phase) == Some(n)
                &&& s[k].candidates == s[j].candidates
                &&& s[k].phase is RemovingOrphan ==> runs(r[k - 1], removal)
                &&& s[k].phase is RemovingOrphan ==> k - 1 > j
            }
        }),
    decreases k - j,
{
    assert(sweep_step(s[k - 1], s[k], o[k - 1], r[k - 1]));
    if k > j + 1 {
        lemma_disowned_pending(s, o, r, j, n, k - 1);
        let removal = Op::RemoveDirAll { path: s[j].candidates@[n as int]@ };
        if s[k - 1].phase is RemovingOrphan && orphan_under_treatment(s[k - 1].phase) == Some(n)
            && s[k - 1].candidates == s[j].candidates {
            assert(runs(r[k - 2], removal));
        }
    }
}

/// A sweep that runs to its end removes every directory the registry
/// disowns: once the registry answers at step `j` that candidate `n` is not
/// registered, a later step asks for the removal of that candidate.
pub proof fn lemma_sweep_removes_disowned(
    s: Seq<OrphanSweep>,
    o: Seq<Outcome>,
    r: Seq<Step<()>>,
    j: int,
    n: usize,
)
    requires
        s.len() == r.len() + 1,
        o.len() == r.len(),
        0 <= j < r.len(),
        disowned_at(s, o, j, n),
        s.last().phase is Finished,
        forall|i: int| 0 <= i < r.len() ==> sweep_step(s[i], s[i + 1], o[i], #[trigger] r[i]),
    ensures
        exists|i: int|
            j < i < r.len() && runs(
                #[trigger] r[i],
                Op::RemoveDirAll { path: s[j].candidates@[n as int]@ },
            ),
{
    lemma_disowned_pending(s, o, r, j, n, s.len() - 1);
}

/// At step `i` the sweep asked the registry about `path`.
pub open spec fn queried_at(r: Seq<Step<()>>, i: int, path: Seq<char>) -> bool {
    runs(r[i], Op::IsRegistered { path })
}

/// The base directory and the candidate that a phase works on, from the
/// registry question to the removal.
pub open spec fn candidate_index(p: SweepPhase) -> Option<(usize, usize)> {
    match p {
        SweepPhase::Checking { base, next } => Some((base, next)),
        SweepPhase::ListingOrphan { base, next } => Some((base, next)),
        SweepPhase::CleaningChild { base, next, .. } => Some((base, next)),
        SweepPhase::RemovingOrphan { base, next, .. } => Some((base, next)),
        _ => None,
    }
}

/// `path` was put to the registry at one of the steps `j..k`.
pub open spec fn queried_between(r: Seq<Step<()>>, path: Seq<char>, j: int, k: int) -> bool {
    exists|i: int| j <= i < k && #[trigger] queried_at(r, i, path)
}

/// Entries `0..m` of `v` were put to the registry at steps `j..k`.
pub open spec fn queried_prefix(r: Seq<Step<()>>, v: Seq<String>, m: int, j: int, k: int) -> bool {
    forall|c: int| 0 <= c < m ==> queried_between(r, (#[trigger] v[c])@, j, k)
}

/// At state `k` the sweep still works on an entry `n` of the listing `v` of
/// base directory `b`, and entries `0..=n` were put to the registry at steps
/// `j..k`.
pub open spec fn still_on_listing(
    s: Seq<OrphanSweep>,
    r: Seq<Step<()>>,
    v: Seq<String>,
    b: usize,
    j: int,
    k: int,
) -> bool {
    &&& candidate_index(s[k].phase) matches Some((b2, n)) && b2 == b
    &&& s[k].candidates@ == v
    &&& queried_prefix(r, v, candidate_index(s[k].phase)->Some_0.1 + 1, j, k)
}

/// A fact put to the registry by step `k - 1` still was by step `k`.
proof fn lemma_queried_widen(r: Seq<Step<()>>, v: Seq<String>, m: int, j: int, k: int)
    requires
        queried_prefix(r, v, m, j, k - 1),
    ensures
        queried_prefix(r, v, m, j, k),
{
    assert forall|c: int| 0 <= c < m implies queried_between(r, (#[trigger] v[c])@, j, k) by {
        assert(queried_between(r, v[c]@, j, k - 1));
        let i = choose|i: int| j <= i < k - 1 && #[trigger] queried_at(r, i, v[c]@);
        assert(queried_at(r, i, v[c]@));
    }
}

/// After a base directory was listed at step `j`, by state `k` either every
/// entry of the listing was put to the registry, or the sweep still works on
/// the listing.
proof fn lemma_listing_queried(
    s: Seq<OrphanSweep>,
    o: Seq<Outcome>,
    r: Seq<Step<()>>,
    j: int,
    k: int,
)
    requires
        s.len() == r.len() + 1,
        o.len() == r.len(),
        0 <= j < r.len(),
        j < k < s.len(),
        s[j].phase is Listing,
        o[j] is Listed,
        forall|i: int| 0 <= i < r.len() ==> sweep_step(s[i], s[i + 1], o[i], #[trigger] r[i]),
    ensures
        queried_prefix(r, o[j]->Listed_0@, o[j]->Listed_0@.len() as int, j, k) || still_on_listing(
            s,
            r,
            o[j]->Listed_0@,
            s[j].phase->Listing_base,
            j,
            k,
        ),
    decreases k - j,
{
    let b = s[j].phase->Listing_base;
    let v = o[j]->Listed_0@;
    assert(sweep_step(s[k - 1], s[k], o[k - 1], r[k - 1]));
    if k == j + 1 {
        if v.len() > 0 {
            assert(queried_at(r, j, v[0]@));
            assert(queried_between(r, v[0]@, j, k));
            assert(queried_prefix(r, v, 1, j, k));
        }
    } else {
        lemma_listing_queried(s, o, r, j, k - 1);
        if queried_prefix(r, v, v.len() as int, j, k - 1) {
            lemma_queried_widen(r, v, v.len() as int, j, k);
        } else {
            let n = candidate_index(s[k - 1].phase)->Some_0.1;
            lemma_queried_widen(r, v, n + 1, j, k);
            assert(sweep_step(s[k - 2], s[k - 1], o[k - 2], r[k - 2]));
            assert(s[k - 1].wf());
            if candidate_index(s[k].phase) is Some && candidate_index(s[k].phase)->Some_0.1 == n {
                assert(still_on_listing(s, r, v, b, j, k));
            } else if n + 1 < v.len() {
                assert(queried_at(r, k - 1, v[n + 1]@));
                assert(queried_between(r, v[n + 1]@, j, k));
                assert forall|c: int| 0 <= c < n + 2 implies queried_between(r, (#[trigger] v[c])@, j, k) by {
                    if c < n + 1 {
                        assert(queried_prefix(r, v, n + 1, j, k));
                    }
                }
                assert(still_on_listing(s, r, v, b, j, k));
            } else {
                assert(queried_prefix(r, v, v.len() as int, j, k));
            }
        }
    }
}

/// A sweep that runs to its end puts every subdirectory it listed to the
/// registry: once a base directory was listed at step `j`, each entry of the
/// listing is asked about at a later step.
pub proof fn lemma_sweep_queries_every_listed(
    s: Seq<OrphanSweep>,
    o: Seq<Outcome>,
    r: Seq<Step<()>>,
    j: int,
)
    requires
        s.len() == r.len() + 1,
        o.len() == r.len(),
        0 <= j < r.len(),
        s[j].phase is Listing,
        o[j] is Listed,
        s.last().phase is Finished,
        forall|i: int| 0 <= i < r.len() ==> sweep_step(s[i], s[i + 1], o[i], #[trigger] r[i]),
    ensures
        queried_prefix(r, o[j]->Listed_0@, o[j]->Listed_0@.len() as int, j, r.len() as int),
{
    lemma_listing_queried(s, o, r, j, s.len() - 1);
}

} // verus!
