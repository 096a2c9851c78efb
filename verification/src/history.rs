//! Ancestry in the object store, and the search for the trunk commit that a
//! commit is based on.
//!
//! The search walks from both commits at once, breadth first and over all
//! parents. The two walks take turns. At each turn a walk looks up the commit
//! that is next in its line among the commits that the other walk has
//! reached, and then visits the parents of that commit. The search ends with
//! the first commit found on both sides, or, when both walks have run out,
//! with the answer that there is none.

use crate::error::ErrorKind;
use crate::error::Result;
use crate::oid::Oid;
use crate::oid::oid_views;
use crate::repo::backend_error;
use crate::repo::commit_parent_ids;
use crate::repo::shown_parents;
use vstd::prelude::*;

verus! {

/// Whether `child` is a commit of which the repository shows `parent` as a
/// parent.
pub open spec fn is_parent(repo: git2::Repository, child: Seq<u8>, parent: Seq<u8>) -> bool {
    shown_parents(repo).contains_key(child) && shown_parents(repo)[child].contains(parent)
}

/// Whether `child` is a commit of which the repository shows `parent` as the
/// one parent.
pub open spec fn is_only_parent(repo: git2::Repository, child: Seq<u8>, parent: Seq<u8>) -> bool {
    shown_parents(repo).contains_key(child) && shown_parents(repo)[child] == seq![parent]
}

/// Whether each commit of `path` but the first is a parent of the commit
/// before it.
pub open spec fn is_path(repo: git2::Repository, path: Seq<Seq<u8>>) -> bool {
    path.len() > 0 && forall|i: int|
        0 <= i < path.len() - 1 ==> is_parent(repo, #[trigger] path[i], path[i + 1])
}

/// Whether `to` is `from` or an ancestor of it.
pub open spec fn reaches(repo: git2::Repository, from: Seq<u8>, to: Seq<u8>) -> bool {
    exists|path: Seq<Seq<u8>>| #[trigger]
        is_path(repo, path) && path[0] == from && path.last() == to
}

/// Whether `to` is a common ancestor of `commit` and `master`, each commit
/// counted among its own ancestors.
pub open spec fn is_master_base(
    repo: git2::Repository,
    commit: Seq<u8>,
    master: Seq<u8>,
    to: Seq<u8>,
) -> bool {
    reaches(repo, commit, to) && reaches(repo, master, to)
}

/// Whether `base` is the nearest of the common ancestors of `commit` and
/// `master`: every common ancestor of the two is `base` or an ancestor of it.
pub open spec fn is_nearest_base(
    repo: git2::Repository,
    commit: Seq<u8>,
    master: Seq<u8>,
    base: Seq<u8>,
) -> bool {
    forall|x: Seq<u8>| #[trigger] is_master_base(repo, commit, master, x) ==> reaches(repo, base, x)
}

/// Whether the history of `start` is a line: no commit that is `start` or an
/// ancestor of it has more than one parent.
pub open spec fn is_linear_from(repo: git2::Repository, start: Seq<u8>) -> bool {
    forall|x: Seq<u8>| #[trigger]
        reaches(repo, start, x) && shown_parents(repo).contains_key(x) ==> shown_parents(
            repo,
        )[x].len() <= 1
}

/// Whether each commit of `line` but the last has the next for its one
/// parent.
pub open spec fn is_only_parent_line(repo: git2::Repository, line: Seq<Seq<u8>>) -> bool {
    forall|k: int| 0 <= k < line.len() - 1 ==> is_only_parent(repo, #[trigger] line[k], line[k + 1])
}

/// A path goes along a line of only parents as far as both go.
proof fn lemma_path_follows_line(
    repo: git2::Repository,
    line: Seq<Seq<u8>>,
    path: Seq<Seq<u8>>,
    i: int,
)
    requires
        is_only_parent_line(repo, line),
        is_path(repo, path),
        line.len() > 0,
        path[0] == line[0],
        0 <= i < path.len(),
        i < line.len(),
    ensures
        path[i] == line[i],
    decreases i,
{
    if i > 0 {
        lemma_path_follows_line(repo, line, path, i - 1);
        assert(is_parent(repo, path[i - 1], path[i]));
        assert(is_only_parent(repo, line[i - 1], line[i]));
        let shown = shown_parents(repo)[line[i - 1]];
        let k = choose|k: int| 0 <= k < shown.len() && shown[k] == path[i];
        assert(shown[0] == line[i]);
    }
}

/// The rest of a path from one of its commits on is a path.
proof fn lemma_rest_of_path(repo: git2::Repository, path: Seq<Seq<u8>>, i: int)
    requires
        is_path(repo, path),
        0 <= i < path.len(),
    ensures
        reaches(repo, path[i], path.last()),
{
    let rest = path.skip(i);
    assert forall|k: int| 0 <= k < rest.len() - 1 implies is_parent(
        repo,
        #[trigger] rest[k],
        rest[k + 1],
    ) by {
        assert(is_parent(repo, path[i + k], path[i + k + 1]));
    }
    assert(is_path(repo, rest) && rest[0] == path[i] && rest.last() == path.last());
}

/// Whether all the parents that the repository shows for `commit` are in
/// `set`.
pub open spec fn parents_in(repo: git2::Repository, commit: Seq<u8>, set: Seq<Seq<u8>>) -> bool {
    shown_parents(repo).contains_key(commit) && forall|k: int|
        0 <= k < shown_parents(repo)[commit].len() ==> set.contains(
            #[trigger] shown_parents(repo)[commit][k],
        )
}

/// Whether `set` holds `master` and, with each of its commits, all the
/// parents of that commit.
pub open spec fn is_closed(repo: git2::Repository, master: Seq<u8>, set: Seq<Seq<u8>>) -> bool {
    set.contains(master) && forall|j: int|
        0 <= j < set.len() ==> #[trigger] parents_in(repo, set[j], set)
}

/// A path that is made longer by a parent of its last commit is a path.
proof fn lemma_reaches_parent(repo: git2::Repository, from: Seq<u8>, via: Seq<u8>, to: Seq<u8>)
    requires
        reaches(repo, from, via),
        is_parent(repo, via, to),
    ensures
        reaches(repo, from, to),
{
    let path = choose|path: Seq<Seq<u8>>| #[trigger]
        is_path(repo, path) && path[0] == from && path.last() == via;
    let longer = path.push(to);
    assert(is_path(repo, longer) && longer[0] == from && longer.last() == to);
}

/// A commit reaches itself.
proof fn lemma_reaches_self(repo: git2::Repository, commit: Seq<u8>)
    ensures
        reaches(repo, commit, commit),
{
    let path = seq![commit];
    assert(is_path(repo, path) && path[0] == commit && path.last() == commit);
}

/// A set that is closed under parents holds every ancestor of its commits.
proof fn lemma_closed_is_complete(
    repo: git2::Repository,
    master: Seq<u8>,
    set: Seq<Seq<u8>>,
    to: Seq<u8>,
)
    requires
        is_closed(repo, master, set),
        reaches(repo, master, to),
    ensures
        set.contains(to),
{
    let path = choose|path: Seq<Seq<u8>>| #[trigger]
        is_path(repo, path) && path[0] == master && path.last() == to;
    lemma_closed_holds_path(repo, set, path, path.len() - 1);
}

proof fn lemma_closed_holds_path(
    repo: git2::Repository,
    set: Seq<Seq<u8>>,
    path: Seq<Seq<u8>>,
    i: int,
)
    requires
        is_path(repo, path),
        set.contains(path[0]),
        forall|j: int| 0 <= j < set.len() ==> #[trigger] parents_in(repo, set[j], set),
        0 <= i < path.len(),
    ensures
        set.contains(path[i]),
    decreases i,
{
    if i > 0 {
        lemma_closed_holds_path(repo, set, path, i - 1);
        let j = choose|j: int| 0 <= j < set.len() && set[j] == path[i - 1];
        assert(parents_in(repo, set[j], set));
    }
}

/// What a list of identities holds, it still holds when one more is pushed.
proof fn lemma_push_keeps(list: Seq<Oid>, added: Oid, x: Seq<u8>)
    requires
        oid_views(list).contains(x),
    ensures
        oid_views(list.push(added)).contains(x),
{
    let j = choose|j: int| 0 <= j < oid_views(list).len() && oid_views(list)[j] == x;
    assert(oid_views(list.push(added))[j] == x);
}

/// How far a walk from a commit has come.
struct Walk {
    /// The commit and the ancestors of it that have been reached, in the
    /// order in which they were reached.
    visited: Vec<Oid>,
    /// How many of `visited` have had their parents visited.
    head: usize,
}

/// Whether no commit whose parents one walk has visited is a commit whose
/// parents the other has visited.
spec fn apart(a: Walk, b: Walk) -> bool {
    forall|i: int, j: int|
        0 <= i < a.head && 0 <= j < b.head ==> (#[trigger] a.visited@[i])@ != (
        #[trigger] b.visited@[j])@
}

impl Walk {
    /// What holds of a walk from `start` between two steps.
    spec fn inv(&self, repo: git2::Repository, start: Seq<u8>) -> bool {
        &&& self.head <= self.visited@.len()
        &&& self.visited@.len() >= 1
        &&& self.visited@[0]@ == start
        &&& forall|j: int|
            0 <= j < self.visited@.len() ==> reaches(repo, start, #[trigger] self.visited@[j]@)
        &&& forall|j: int|
            0 <= j < self.head ==> #[trigger] parents_in(
                repo,
                oid_views(self.visited@)[j],
                oid_views(self.visited@),
            )
    }

    /// Whether the walk has gone along a line: the commits that it has
    /// reached are a line of only parents, and at most one of them is yet to
    /// have its parents visited.
    spec fn is_line(&self, repo: git2::Repository) -> bool {
        self.visited@.len() <= self.head + 1 && is_only_parent_line(
            repo,
            oid_views(self.visited@),
        )
    }

    /// A walk that has run out has reached every ancestor of its start.
    proof fn lemma_run_out(&self, repo: git2::Repository, start: Seq<u8>, to: Seq<u8>)
        requires
            self.inv(repo, start),
            self.head == self.visited@.len(),
            reaches(repo, start, to),
        ensures
            exists|j: int| 0 <= j < self.head && (#[trigger] self.visited@[j])@ == to,
    {
        let set = oid_views(self.visited@);
        assert(set[0] == start);
        lemma_closed_is_complete(repo, start, set, to);
        let j = choose|j: int| 0 <= j < set.len() && set[j] == to;
        assert(self.visited@[j]@ == to);
    }

    /// Where both walks have gone along lines, the commit that is next in
    /// line for one and was reached by the other is the nearest of the common
    /// ancestors.
    proof fn lemma_found_is_nearest(
        &self,
        repo: git2::Repository,
        start: Seq<u8>,
        other: Walk,
        other_start: Seq<u8>,
        j: int,
    )
        requires
            self.inv(repo, start),
            other.inv(repo, other_start),
            apart(*self, other),
            self.is_line(repo),
            other.is_line(repo),
            self.head < self.visited@.len(),
            0 <= j < other.visited@.len(),
            other.visited@[j]@ == self.visited@[self.head as int]@,
        ensures
            is_nearest_base(repo, start, other_start, self.visited@[self.head as int]@),
    {
        let found = self.visited@[self.head as int]@;
        let here = oid_views(self.visited@);
        let there = oid_views(other.visited@);
        let h = self.head as int;
        assert(here[h] == found);
        assert(there[j] == found);
        assert forall|x: Seq<u8>| #[trigger]
            is_master_base(repo, start, other_start, x) implies reaches(repo, found, x) by {
            let one = choose|path: Seq<Seq<u8>>| #[trigger]
                is_path(repo, path) && path[0] == start && path.last() == x;
            let two = choose|path: Seq<Seq<u8>>| #[trigger]
                is_path(repo, path) && path[0] == other_start && path.last() == x;
            let t = one.len() - 1;
            let u = two.len() - 1;
            if t >= h {
                lemma_path_follows_line(repo, here, one, h);
                lemma_rest_of_path(repo, one, h);
            } else if u >= j {
                lemma_path_follows_line(repo, there, two, j);
                lemma_rest_of_path(repo, two, j);
            } else {
                lemma_path_follows_line(repo, here, one, t);
                lemma_path_follows_line(repo, there, two, u);
                assert(self.visited@[t]@ == here[t]);
                assert(other.visited@[u]@ == there[u]);
                assert(false);
            }
        }
    }

    /// The walk from `start`, before its first step.
    fn new(repo: &git2::Repository, start: Oid) -> (r: Walk)
        ensures
            r.inv(*repo, start@),
            r.is_line(*repo),
            r.head == 0,
    {
        let mut visited: Vec<Oid> = Vec::new();
        visited.push(start);
        proof {
            lemma_reaches_self(*repo, start@);
        }
        Walk { visited, head: 0 }
    }

    /// Adds the parents of the commit at `head` to the commits that have been
    /// reached, as far as they are not among them.
    fn visit_parents(&mut self, repo: &git2::Repository, start: Oid, parents: &Vec<Oid>)
        requires
            old(self).inv(*repo, start@),
            old(self).head < old(self).visited@.len(),
            shown_parents(*repo).contains_key(old(self).visited@[old(self).head as int]@),
            shown_parents(*repo)[old(self).visited@[old(self).head as int]@] == oid_views(
                parents@,
            ),
        ensures
            final(self).inv(*repo, start@),
            final(self).head == old(self).head,
            final(self).visited@.len() >= old(self).visited@.len(),
            forall|j: int|
                0 <= j < old(self).visited@.len() ==> #[trigger] final(self).visited@[j] == old(
                    self,
                ).visited@[j],
            parents_in(
                *repo,
                oid_views(final(self).visited@)[final(self).head as int],
                oid_views(final(self).visited@),
            ),
            is_linear_from(*repo, start@) && old(self).is_line(*repo) ==> final(self).visited@.len()
                <= old(self).head + 2 && is_only_parent_line(
                *repo,
                oid_views(final(self).visited@),
            ),
    {
        let ghost oid = self.visited@[self.head as int];
        let ghost linear = is_linear_from(*repo, start@) && old(self).is_line(*repo);
        let mut k: usize = 0;
        while k < parents.len()
            invariant
                k <= parents.len(),
                linear ==> parents@.len() <= 1 && self.visited@.len() <= self.head + 1 + k
                    && is_only_parent_line(*repo, oid_views(self.visited@)),
                self.inv(*repo, start@),
                self.head == old(self).head,
                self.head < self.visited@.len(),
                self.visited@.len() >= old(self).visited@.len(),
                forall|j: int|
                    0 <= j < old(self).visited@.len() ==> #[trigger] self.visited@[j] == old(
                        self,
                    ).visited@[j],
                self.visited@[self.head as int] == oid,
                shown_parents(*repo).contains_key(oid@),
                shown_parents(*repo)[oid@] == oid_views(parents@),
                forall|m: int|
                    0 <= m < k ==> oid_views(self.visited@).contains(
                        #[trigger] oid_views(parents@)[m],
                    ),
            decreases parents.len() - k,
        {
            let parent = parents[k];
            if !parent.is_in(&self.visited) {
                let ghost before = self.visited@;
                self.visited.push(parent);
                proof {
                    assert(oid_views(parents@)[k as int] == parent@);
                    lemma_reaches_parent(*repo, start@, oid@, parent@);
                    assert(oid_views(self.visited@)[before.len() as int] == parent@);
                    if linear {
                        let line = oid_views(self.visited@);
                        assert(oid_views(parents@) =~= seq![parent@]);
                        assert forall|m: int| 0 <= m < line.len() - 1 implies is_only_parent(
                            *repo,
                            #[trigger] line[m],
                            line[m + 1],
                        ) by {
                            if m < before.len() - 1 {
                                assert(is_only_parent(
                                    *repo,
                                    oid_views(before)[m],
                                    oid_views(before)[m + 1],
                                ));
                            } else {
                                assert(line[m] == oid@);
                            }
                        }
                    }
                    assert forall|j: int| 0 <= j < self.head implies #[trigger] parents_in(
                        *repo,
                        oid_views(self.visited@)[j],
                        oid_views(self.visited@),
                    ) by {
                        assert(parents_in(*repo, oid_views(before)[j], oid_views(before)));
                        let shown = shown_parents(*repo)[oid_views(before)[j]];
                        assert forall|n: int| 0 <= n < shown.len() implies oid_views(
                            self.visited@,
                        ).contains(#[trigger] shown[n]) by {
                            lemma_push_keeps(before, parent, shown[n]);
                        }
                    }
                    assert forall|m: int| 0 <= m < k + 1 implies oid_views(
                        self.visited@,
                    ).contains(#[trigger] oid_views(parents@)[m]) by {
                        if m < k {
                            lemma_push_keeps(before, parent, oid_views(parents@)[m]);
                        }
                    }
                }
            }
            k = k + 1;
        }
    }

    /// One step of the walk from `start`. Gives the commit that is next in
    /// line where the walk `other` from `other_start` has reached it, and
    /// otherwise visits its parents.
    fn step(&mut self, repo: &git2::Repository, start: Oid, other: &Walk, other_start: Oid) -> (r:
        Result<Option<Oid>>)
        requires
            old(self).inv(*repo, start@),
            other.inv(*repo, other_start@),
            apart(*old(self), *other),
            old(self).head < old(self).visited@.len(),
        ensures
            r matches Ok(Some(base)) ==> reaches(*repo, start@, base@) && reaches(
                *repo,
                other_start@,
                base@,
            ),
            r matches Ok(Some(base)) ==> (old(self).is_line(*repo) && other.is_line(*repo)
                ==> is_nearest_base(*repo, start@, other_start@, base@)),
            r matches Ok(None) ==> final(self).inv(*repo, start@) && apart(*final(self), *other)
                && final(self).head == old(self).head + 1,
            r matches Ok(None) ==> (is_linear_from(*repo, start@) && old(self).is_line(*repo)
                ==> final(self).is_line(*repo)),
            r matches Err(e) ==> e@.kind == ErrorKind::Backend,
    {
        let oid = self.visited[self.head];
        if oid.is_in(&other.visited) {
            proof {
                let j = choose|j: int|
                    0 <= j < oid_views(other.visited@).len() && oid_views(other.visited@)[j]
                        == oid@;
                assert(other.visited@[j]@ == oid@);
                if self.is_line(*repo) && other.is_line(*repo) {
                    self.lemma_found_is_nearest(*repo, start@, *other, other_start@, j);
                }
            }
            return Ok(Some(oid));
        }
        let parents = match commit_parent_ids(repo, oid) {
            Ok(parents) => parents,
            Err(e) => {
                return Err(backend_error(e));
            },
        };
        proof {
            assert(oid_views(self.visited@)[self.head as int] == oid@);
        }
        self.visit_parents(repo, start, &parents);
        proof {
            assert forall|i: int, j: int|
                0 <= i < self.head + 1 && 0 <= j < other.head implies (
            #[trigger] self.visited@[i])@ != (#[trigger] other.visited@[j])@ by {
                assert(self.visited@[i] == old(self).visited@[i]);
                if i == self.head {
                    assert(oid_views(other.visited@)[j] == other.visited@[j]@);
                }
            }
        }
        assert(self.head < self.visited.len());
        self.head = self.head + 1;
        Ok(None)
    }
}

/// Where both walks have run out and no commit was found on both sides, the
/// two commits have no common ancestor.
proof fn lemma_both_run_out(
    repo: git2::Repository,
    a: Walk,
    b: Walk,
    commit: Seq<u8>,
    master: Seq<u8>,
)
    requires
        a.inv(repo, commit),
        b.inv(repo, master),
        apart(a, b),
        a.head == a.visited@.len(),
        b.head == b.visited@.len(),
    ensures
        forall|x: Seq<u8>| !#[trigger] is_master_base(repo, commit, master, x),
{
    assert forall|x: Seq<u8>| !#[trigger] is_master_base(repo, commit, master, x) by {
        if is_master_base(repo, commit, master, x) {
            a.lemma_run_out(repo, commit, x);
            b.lemma_run_out(repo, master, x);
        }
    }
}

/// Searches for the trunk commit that `commit_oid` is based on: the first
/// commit that the walks from `commit_oid` and from `master_oid` both reach.
///
/// The answer `Some` names a common ancestor of the two commits, each commit
/// counted among its own ancestors; for one and the same commit it names that
/// commit. Where the histories of both commits are lines, in which no commit
/// has more than one parent, it names the nearest of their common ancestors.
/// The answer `None` says that the two have no common ancestor. The search
/// fails where a commit cannot be read.
pub fn find_master_base(repo: &git2::Repository, commit_oid: Oid, master_oid: Oid) -> (r: Result<
    Option<Oid>,
>)
    ensures
        r matches Ok(Some(base)) ==> is_master_base(*repo, commit_oid@, master_oid@, base@),
        r matches Ok(None) ==> forall|x: Seq<u8>|
            !#[trigger] is_master_base(*repo, commit_oid@, master_oid@, x),
        r matches Err(e) ==> e@.kind == ErrorKind::Backend,
        commit_oid@ == master_oid@ ==> r == Ok::<Option<Oid>, crate::error::SprError>(
            Some(commit_oid),
        ),
        r matches Ok(Some(base)) ==> (is_linear_from(*repo, commit_oid@) && is_linear_from(
            *repo,
            master_oid@,
        ) ==> is_nearest_base(*repo, commit_oid@, master_oid@, base@)),
{
    let mut from_commit = Walk::new(repo, commit_oid);
    let mut from_master = Walk::new(repo, master_oid);
    if commit_oid == master_oid {
        proof {
            assert forall|x: Seq<u8>| #[trigger]
                is_master_base(*repo, commit_oid@, master_oid@, x) implies reaches(
                *repo,
                commit_oid@,
                x,
            ) by {}
        }
        return Ok(Some(commit_oid));
    }
    let ghost linear = is_linear_from(*repo, commit_oid@) && is_linear_from(*repo, master_oid@);
    while from_commit.head < from_commit.visited.len() || from_master.head
        < from_master.visited.len()
        invariant
            from_commit.inv(*repo, commit_oid@),
            from_master.inv(*repo, master_oid@),
            apart(from_commit, from_master),
            commit_oid@ != master_oid@,
            linear == (is_linear_from(*repo, commit_oid@) && is_linear_from(*repo, master_oid@)),
            linear ==> from_commit.is_line(*repo) && from_master.is_line(*repo),
        decreases (usize::MAX - from_commit.head) + (usize::MAX - from_master.head),
    {
        if from_commit.head < from_commit.visited.len() {
            match from_commit.step(repo, commit_oid, &from_master, master_oid)? {
                Some(base) => {
                    return Ok(Some(base));
                },
                None => {},
            }
        }
        if from_master.head < from_master.visited.len() {
            match from_master.step(repo, master_oid, &from_commit, commit_oid)? {
                Some(base) => {
                    proof {
                        if linear {
                            assert forall|x: Seq<u8>| #[trigger]
                                is_master_base(*repo, commit_oid@, master_oid@, x) implies reaches(
                                *repo,
                                base@,
                                x,
                            ) by {
                                assert(is_master_base(*repo, master_oid@, commit_oid@, x));
                            }
                        }
                    }
                    return Ok(Some(base));
                },
                None => {},
            }
        }
    }
    proof {
        lemma_both_run_out(*repo, from_commit, from_master, commit_oid@, master_oid@);
    }
    Ok(None)
}

} // verus!
