use spr::oid::Oid;
use spr::sync::base_parents;
use spr::sync::decide;
use spr::sync::ladder_case;
use spr::sync::LadderCase;
use spr::sync::needs_merging_master;
use spr::sync::no_update_necessary;
use spr::sync::pr_commit_parents;
use spr::sync::PullRequestStatus;
use spr::sync::SyncInput;
use spr::sync::Targets;

fn id(n: u8) -> Oid {
    Oid::from_bytes([n; 20])
}

// A pull request whose head has the tree 11 and whose base has the tree 12,
// compared with the commit 2 and based on the trunk commit 3; the local commit
// has the tree 11 and its parent the tree 12; the stack stands on the trunk
// commit 3.
fn settled() -> SyncInput {
    SyncInput {
        directly_based_on_master: true,
        cherry_pick: false,
        has_pull_request: true,
        has_base_branch: false,
        status: PullRequestStatus {
            head_oid: id(1),
            head_tree: id(11),
            base_oid: id(2),
            base_tree: id(12),
            master_base: id(3),
        },
        targets: Targets { head_tree: id(11), base_tree: id(12) },
        master_base_oid: id(3),
    }
}

#[test]
fn pull_request_that_is_what_it_must_be_needs_no_update() {
    let input = settled();
    assert!(!needs_merging_master(&input));
    assert!(no_update_necessary(&input));

    let mut amended = settled();
    amended.targets.head_tree = id(21);
    assert!(!no_update_necessary(&amended));
    let mut parent_changed = settled();
    parent_changed.targets.base_tree = id(22);
    assert!(!no_update_necessary(&parent_changed));
    let mut rebased = settled();
    rebased.master_base_oid = id(4);
    assert!(needs_merging_master(&rebased));
    assert!(!no_update_necessary(&rebased));
    let mut new = settled();
    new.has_pull_request = false;
    assert!(!no_update_necessary(&new));
}

#[test]
fn amended_commit_leaves_the_base_as_it_is() {
    let mut input = settled();
    input.targets.head_tree = id(21);
    for has_base_branch in [false, true] {
        for direct in [false, true] {
            for cherry_pick in [false, true] {
                input.has_base_branch = has_base_branch;
                input.directly_based_on_master = direct;
                input.cherry_pick = cherry_pick;
                assert_eq!(ladder_case(&input), LadderCase::UnchangedBase);
                let decision = decide(&input);
                assert_eq!(decision.case, LadderCase::UnchangedBase);
                assert_eq!(decision.new_head_tree, id(21));
                assert_eq!(decision.new_base_tree, id(12));
                assert!(!decision.needs_merging_master);
                assert_eq!(decision.base_branch_required, has_base_branch);
                assert!(decision.base_parents.is_empty());
            }
        }
    }
}

#[test]
fn commit_on_the_trunk_gets_the_trunk_folded_in() {
    // The trunk has moved on, again and again.
    for trunk in [4u8, 5, 6, 7] {
        let mut input = settled();
        input.master_base_oid = id(trunk);
        input.targets.base_tree = id(trunk + 10);
        assert_eq!(ladder_case(&input), LadderCase::TrunkFold);
        let decision = decide(&input);
        assert_eq!(decision.case, LadderCase::TrunkFold);
        assert!(decision.needs_merging_master);
        assert!(!decision.base_branch_required);
        assert!(decision.base_parents.is_empty());
    }
    // A replay on the trunk counts like a commit on the trunk.
    let mut replayed = settled();
    replayed.directly_based_on_master = false;
    replayed.cherry_pick = true;
    replayed.master_base_oid = id(4);
    assert_eq!(ladder_case(&replayed), LadderCase::TrunkFold);
    // The same trunk base with another tree of the parent is folded in, too.
    let mut parent_changed = settled();
    parent_changed.targets.base_tree = id(22);
    assert_eq!(ladder_case(&parent_changed), LadderCase::TrunkFold);
}

#[test]
fn commit_on_other_commits_gets_a_base_branch() {
    let mut input = settled();
    input.directly_based_on_master = false;
    input.targets.base_tree = id(22);
    assert_eq!(ladder_case(&input), LadderCase::BaseBranch);
    let decision = decide(&input);
    assert_eq!(decision.case, LadderCase::BaseBranch);
    assert!(decision.base_branch_required);
    assert!(!decision.needs_merging_master);
    assert_eq!(decision.new_base_tree, id(22));
    assert_eq!(decision.base_parents, vec![id(2)]);
    assert_eq!(base_parents(&input), vec![id(2)]);

    input.master_base_oid = id(4);
    let decision = decide(&input);
    assert!(decision.needs_merging_master);
    assert_eq!(decision.base_parents, vec![id(2), id(4)]);

    // The trunk base is no second parent where it is the first already.
    input.status.base_oid = id(4);
    assert_eq!(decide(&input).base_parents, vec![id(4)]);
}

#[test]
fn base_branch_is_never_dropped() {
    for direct in [false, true] {
        for cherry_pick in [false, true] {
            for (base_tree, trunk) in [(12u8, 3u8), (22, 3), (12, 4), (22, 4)] {
                let mut input = settled();
                input.has_base_branch = true;
                input.directly_based_on_master = direct;
                input.cherry_pick = cherry_pick;
                input.targets.base_tree = id(base_tree);
                input.master_base_oid = id(trunk);
                let decision = decide(&input);
                assert!(decision.base_branch_required);
                assert_ne!(decision.case, LadderCase::TrunkFold);
            }
        }
    }
}

#[test]
fn second_pass_finds_nothing_to_update() {
    for has_base_branch in [false, true] {
        for direct in [false, true] {
            for (base_tree, trunk) in [(22u8, 3u8), (12, 4), (22, 4)] {
                let mut input = settled();
                input.has_base_branch = has_base_branch;
                input.directly_based_on_master = direct;
                input.targets.head_tree = id(21);
                input.targets.base_tree = id(base_tree);
                input.master_base_oid = id(trunk);
                assert!(!no_update_necessary(&input));
                let decision = decide(&input);
                // What the pass leaves behind.
                let mut after = input;
                after.has_pull_request = true;
                after.has_base_branch = decision.base_branch_required;
                after.status = PullRequestStatus {
                    head_oid: id(31),
                    head_tree: decision.new_head_tree,
                    base_oid: id(32),
                    base_tree: decision.new_base_tree,
                    master_base: input.master_base_oid,
                };
                assert!(no_update_necessary(&after));
                assert_eq!(ladder_case(&after), LadderCase::UnchangedBase);
            }
        }
    }
}

#[test]
fn new_pull_request_stands_for_the_trunk_base() {
    let status = PullRequestStatus::new_pull_request(id(3), id(13));
    assert_eq!(status.head_oid, id(3));
    assert_eq!(status.head_tree, id(13));
    assert_eq!(status.base_oid, id(3));
    assert_eq!(status.base_tree, id(13));
    assert_eq!(status.master_base, id(3));
}

#[test]
fn parents_of_the_new_commit_of_the_pull_request_branch() {
    assert_eq!(pr_commit_parents(id(1), None), vec![id(1)]);
    assert_eq!(pr_commit_parents(id(1), Some(id(2))), vec![id(1), id(2)]);
    assert_eq!(pr_commit_parents(id(1), Some(id(1))), vec![id(1)]);
}
