//! The base-branch synchronizer: what a pull request must become so that it
//! shows exactly the change of one local commit.
//!
//! A pull request compares two references, its head and its base. For a commit
//! that stands directly on the trunk the base is the trunk. For a commit that
//! stands on other commits of the stack the engine keeps a base branch whose
//! tree is the tree of the commit's parent. Everything here is a function of
//! plain values; reading the object store and talking to the service is done
//! elsewhere.

use crate::oid::Oid;
use crate::oid::oid_views;
use vstd::prelude::*;

verus! {

/// The trees that the head and the base of the pull request must have once the
/// pass is done.
#[derive(Debug, Clone, Copy)]
pub struct Targets {
    pub head_tree: Oid,
    pub base_tree: Oid,
}

/// What the pull request is made of before the pass. Where there is no pull
/// request yet, every commit is the trunk base and every tree its tree.
#[derive(Debug, Clone, Copy)]
pub struct PullRequestStatus {
    /// The tip of the pull request branch, and its tree.
    pub head_oid: Oid,
    pub head_tree: Oid,
    /// The commit that the pull request is compared with, and its tree.
    pub base_oid: Oid,
    pub base_tree: Oid,
    /// The trunk commit that the pull request is based on.
    pub master_base: Oid,
}

impl PullRequestStatus {
    /// The status that stands for a pull request that does not exist yet.
    pub fn new_pull_request(master_base_oid: Oid, master_base_tree: Oid) -> (r: PullRequestStatus)
        ensures
            r.head_oid == master_base_oid,
            r.head_tree == master_base_tree,
            r.base_oid == master_base_oid,
            r.base_tree == master_base_tree,
            r.master_base == master_base_oid,
    {
        PullRequestStatus {
            head_oid: master_base_oid,
            head_tree: master_base_tree,
            base_oid: master_base_oid,
            base_tree: master_base_tree,
            master_base: master_base_oid,
        }
    }
}

/// Everything that the choice of a case depends on.
#[derive(Debug, Clone, Copy)]
pub struct SyncInput {
    /// Whether the parent of the local commit is the trunk base.
    pub directly_based_on_master: bool,
    /// Whether the operator asked to submit the commit as replayed on the
    /// trunk.
    pub cherry_pick: bool,
    /// Whether there is a pull request already.
    pub has_pull_request: bool,
    /// Whether the pull request is compared with a base branch, not with the
    /// trunk.
    pub has_base_branch: bool,
    pub status: PullRequestStatus,
    pub targets: Targets,
    /// The trunk commit that the stack stands on.
    pub master_base_oid: Oid,
}

/// The three ways to bring the base of a pull request up to date.
#[derive(Debug, Clone, Copy, PartialEq, Eq, Structural)]
pub enum LadderCase {
    /// The base has the right tree and the right trunk base: nothing is merged
    /// in, and the pull request keeps the base it has.
    UnchangedBase,
    /// The trunk base is merged into the pull request branch as a second
    /// parent; no base branch comes into being.
    TrunkFold,
    /// A new commit for the base branch is made, with the tree of the local
    /// commit's parent, and merged into the pull request branch.
    BaseBranch,
}

/// What the pass does to one pull request.
#[derive(Debug)]
pub struct SynchronizationDecision {
    pub new_head_tree: Oid,
    pub new_base_tree: Oid,
    pub case: LadderCase,
    /// Whether the trunk base of the pull request differs from the trunk base
    /// of the stack, so that the trunk has to be merged in.
    pub needs_merging_master: bool,
    /// Whether the pull request is compared with a base branch after the pass.
    pub base_branch_required: bool,
    /// The parents of the commit to make for the base branch; empty where none
    /// is made.
    pub base_parents: Vec<Oid>,
}

/// The mathematical value of a [`SynchronizationDecision`].
pub ghost struct DecisionView {
    pub new_head_tree: Seq<u8>,
    pub new_base_tree: Seq<u8>,
    pub case: LadderCase,
    pub needs_merging_master: bool,
    pub base_branch_required: bool,
    pub base_parents: Seq<Seq<u8>>,
}

impl View for SynchronizationDecision {
    type V = DecisionView;

    open spec fn view(&self) -> DecisionView {
        DecisionView {
            new_head_tree: self.new_head_tree@,
            new_base_tree: self.new_base_tree@,
            case: self.case,
            needs_merging_master: self.needs_merging_master,
            base_branch_required: self.base_branch_required,
            base_parents: oid_views(self.base_parents@),
        }
    }
}

/// Whether the trunk has to be merged in: the pull request is based on another
/// trunk commit than the stack.
pub open spec fn spec_needs_merging_master(input: SyncInput) -> bool {
    input.status.master_base@ != input.master_base_oid@
}

/// Whether the pull request already is what it must become: it exists, it is
/// based on the right trunk commit, and its head and base have the right
/// trees.
pub open spec fn spec_no_update_necessary(input: SyncInput) -> bool {
    &&& input.has_pull_request
    &&& !spec_needs_merging_master(input)
    &&& input.status.head_tree@ == input.targets.head_tree@
    &&& input.status.base_tree@ == input.targets.base_tree@
}

/// The case that applies, in the order of priority.
pub open spec fn spec_ladder_case(input: SyncInput) -> LadderCase {
    if input.status.base_tree@ == input.targets.base_tree@ && !spec_needs_merging_master(input) {
        LadderCase::UnchangedBase
    } else if !input.has_base_branch && (input.directly_based_on_master || input.cherry_pick) {
        LadderCase::TrunkFold
    } else {
        LadderCase::BaseBranch
    }
}

/// The parents of a new commit for the base branch: the commit that the pull
/// request is compared with now and, where the trunk has to be merged in and
/// is another commit, the trunk base.
pub open spec fn spec_base_parents(input: SyncInput) -> Seq<Seq<u8>> {
    if spec_needs_merging_master(input) && input.status.base_oid@ != input.master_base_oid@ {
        seq![input.status.base_oid@, input.master_base_oid@]
    } else {
        seq![input.status.base_oid@]
    }
}

/// What the pass does to the pull request.
pub open spec fn spec_decide(input: SyncInput) -> DecisionView {
    let case = spec_ladder_case(input);
    DecisionView {
        new_head_tree: input.targets.head_tree@,
        new_base_tree: input.targets.base_tree@,
        case,
        needs_merging_master: spec_needs_merging_master(input),
        base_branch_required: match case {
            LadderCase::UnchangedBase => input.has_base_branch,
            LadderCase::TrunkFold => false,
            LadderCase::BaseBranch => true,
        },
        base_parents: match case {
            LadderCase::BaseBranch => spec_base_parents(input),
            _ => Seq::<Seq<u8>>::empty(),
        },
    }
}

/// Whether the trunk has to be merged into the pull request.
pub fn needs_merging_master(input: &SyncInput) -> (r: bool)
    ensures
        r == spec_needs_merging_master(*input),
{
    input.status.master_base != input.master_base_oid
}

/// Whether the pull request already is what it must become, so that the pass
/// has nothing to push.
pub fn no_update_necessary(input: &SyncInput) -> (r: bool)
    ensures
        r == spec_no_update_necessary(*input),
{
    input.has_pull_request && !needs_merging_master(input) && input.status.head_tree
        == input.targets.head_tree && input.status.base_tree == input.targets.base_tree
}

/// Chooses the case of the ladder.
pub fn ladder_case(input: &SyncInput) -> (r: LadderCase)
    ensures
        r == spec_ladder_case(*input),
{
    if input.status.base_tree == input.targets.base_tree && !needs_merging_master(input) {
        LadderCase::UnchangedBase
    } else if !input.has_base_branch && (input.directly_based_on_master || input.cherry_pick) {
        LadderCase::TrunkFold
    } else {
        LadderCase::BaseBranch
    }
}

/// The parents of a new commit for the base branch.
pub fn base_parents(input: &SyncInput) -> (r: Vec<Oid>)
    ensures
        oid_views(r@) == spec_base_parents(*input),
{
    let mut parents: Vec<Oid> = Vec::new();
    parents.push(input.status.base_oid);
    if needs_merging_master(input) && input.status.base_oid != input.master_base_oid {
        parents.push(input.master_base_oid);
    }
    parents
}

/// Decides what the pass does to the pull request.
pub fn decide(input: &SyncInput) -> (r: SynchronizationDecision)
    ensures
        r@ == spec_decide(*input),
{
    let case = ladder_case(input);
    let (base_branch_required, parents) = match case {
        LadderCase::UnchangedBase => (input.has_base_branch, Vec::new()),
        LadderCase::TrunkFold => (false, Vec::new()),
        LadderCase::BaseBranch => (true, base_parents(input)),
    };
    assert(case != LadderCase::BaseBranch ==> oid_views(parents@) =~= Seq::<Seq<u8>>::empty());
    SynchronizationDecision {
        new_head_tree: input.targets.head_tree,
        new_base_tree: input.targets.base_tree,
        case,
        needs_merging_master: needs_merging_master(input),
        base_branch_required,
        base_parents: parents,
    }
}

/// The parents of the new commit of the pull request branch: the tip that the
/// branch has now and, where a commit is merged in that is not that tip, the
/// merged commit.
pub open spec fn spec_pr_commit_parents(head_oid: Seq<u8>, merged: Option<Seq<u8>>) -> Seq<
    Seq<u8>,
> {
    match merged {
        Some(parent) => if parent != head_oid {
            seq![head_oid, parent]
        } else {
            seq![head_oid]
        },
        None => seq![head_oid],
    }
}

/// The parents of the new commit of the pull request branch.
pub fn pr_commit_parents(head_oid: Oid, merged: Option<Oid>) -> (r: Vec<Oid>)
    ensures
        oid_views(r@) == spec_pr_commit_parents(
            head_oid@,
            match merged {
                Some(m) => Some(m@),
                None => None,
            },
        ),
        r@.len() >= 1,
        r@[0] == head_oid,
{
    let mut parents: Vec<Oid> = Vec::new();
    parents.push(head_oid);
    match merged {
        Some(parent) => {
            if parent != head_oid {
                parents.push(parent);
            }
        },
        None => {},
    }
    parents
}

/// Whether the pull request is compared with a base branch once a pass on
/// `input` is done: as before where nothing had to be updated, and as decided
/// otherwise.
pub open spec fn spec_base_branch_after(input: SyncInput) -> bool {
    if spec_no_update_necessary(input) {
        input.has_base_branch
    } else {
        spec_decide(input).base_branch_required
    }
}

/// Whether the pull request is compared with a base branch after a series of
/// passes. Each pass finds the base branch as the pass before left it;
/// everything else that a pass finds is as `runs` says.
pub open spec fn spec_base_branch_after_runs(has_base_branch: bool, runs: Seq<SyncInput>) -> bool
    decreases runs.len(),
{
    if runs.len() == 0 {
        has_base_branch
    } else {
        let before = spec_base_branch_after_runs(has_base_branch, runs.drop_last());
        spec_base_branch_after(SyncInput { has_base_branch: before, ..runs.last() })
    }
}

/// A commit that stands directly on the trunk, and whose pull request has no
/// base branch, gets none: the ladder chooses the unchanged base or the trunk
/// fold, whatever the trunk base and the trees are.
pub proof fn lemma_trunk_commit_gets_no_base_branch(input: SyncInput)
    requires
        input.directly_based_on_master,
        !input.has_base_branch,
    ensures
        spec_ladder_case(input) != LadderCase::BaseBranch,
        !spec_decide(input).base_branch_required,
        spec_decide(input).base_parents.len() == 0,
        !spec_base_branch_after(input),
{
}

/// However often the trunk moves on: as long as the commit stands directly on
/// the trunk in every pass, a pull request without a base branch stays
/// without one.
pub proof fn lemma_trunk_commit_never_gets_base_branch(runs: Seq<SyncInput>)
    requires
        forall|i: int| 0 <= i < runs.len() ==> (#[trigger] runs[i]).directly_based_on_master,
    ensures
        !spec_base_branch_after_runs(false, runs),
    decreases runs.len(),
{
    if runs.len() > 0 {
        let earlier = runs.drop_last();
        lemma_trunk_commit_never_gets_base_branch(earlier);
        lemma_trunk_commit_gets_no_base_branch(SyncInput { has_base_branch: false, ..runs.last() });
    }
}

/// A pull request that has a base branch keeps it through a pass, also where
/// the commit has come to stand directly on the trunk.
pub proof fn lemma_base_branch_is_kept(input: SyncInput)
    requires
        input.has_base_branch,
    ensures
        spec_ladder_case(input) != LadderCase::TrunkFold,
        spec_decide(input).base_branch_required,
        spec_base_branch_after(input),
{
}

/// A pull request that has a base branch keeps it through any series of
/// passes.
pub proof fn lemma_base_branch_is_never_dropped(runs: Seq<SyncInput>)
    ensures
        spec_base_branch_after_runs(true, runs),
    decreases runs.len(),
{
    if runs.len() > 0 {
        lemma_base_branch_is_never_dropped(runs.drop_last());
        lemma_base_branch_is_kept(SyncInput { has_base_branch: true, ..runs.last() });
    }
}

/// What the next pass finds where this pass has pushed what it decided and
/// nothing else has changed: a pull request whose head and base have the
/// trees that were aimed at and that is based on the trunk base of the
/// stack, with the new tip `head_oid` and compared with `base_oid`.
pub open spec fn spec_found_after(input: SyncInput, head_oid: Oid, base_oid: Oid) -> SyncInput {
    SyncInput {
        has_pull_request: true,
        has_base_branch: spec_base_branch_after(input),
        status: PullRequestStatus {
            head_oid,
            head_tree: input.targets.head_tree,
            base_oid,
            base_tree: input.targets.base_tree,
            master_base: input.master_base_oid,
        },
        ..input
    }
}

/// A second pass has nothing to update: on what the first pass leaves behind,
/// with the same local commit and the same trunk base, the pull request is
/// found to be what it must be, and it is compared with a base branch exactly
/// if it was after the first pass.
pub proof fn lemma_second_pass_updates_nothing(input: SyncInput, head_oid: Oid, base_oid: Oid)
    ensures
        spec_no_update_necessary(spec_found_after(input, head_oid, base_oid)),
        spec_base_branch_after(spec_found_after(input, head_oid, base_oid))
            == spec_base_branch_after(input),
        spec_found_after(spec_found_after(input, head_oid, base_oid), head_oid, base_oid)
            == spec_found_after(input, head_oid, base_oid),
{
}

/// The ladder chooses exactly one case, and the choice depends on nothing but
/// the input: the unchanged base where the base has the right tree and the
/// right trunk base; otherwise the trunk fold where there is no base branch
/// and the commit stands on the trunk or is replayed on it; otherwise the base
/// branch.
pub proof fn lemma_ladder_priorities(input: SyncInput)
    ensures
        spec_ladder_case(input) == LadderCase::UnchangedBase <==> (input.status.base_tree@
            == input.targets.base_tree@ && !spec_needs_merging_master(input)),
        spec_ladder_case(input) == LadderCase::TrunkFold <==> (!(input.status.base_tree@
            == input.targets.base_tree@ && !spec_needs_merging_master(input))
            && !input.has_base_branch && (input.directly_based_on_master || input.cherry_pick)),
        spec_no_update_necessary(input) ==> spec_ladder_case(input) == LadderCase::UnchangedBase,
        spec_decide(input).new_head_tree == input.targets.head_tree@,
        spec_decide(input).new_base_tree == input.targets.base_tree@,
        spec_decide(input).case == LadderCase::BaseBranch ==> spec_decide(input).base_parents.len()
            >= 1 && spec_decide(input).base_parents[0] == input.status.base_oid@,
{
}

} // verus!
