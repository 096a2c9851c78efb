//! The overlay backend: a repository whose commits are managed by a companion
//! tool, which names each change by an identity of its own, while trees and
//! commits are still built in the object store.

pub use crate::commit::PreparedCommit;
use crate::commit::is_line;
use crate::commit::oldest_first;
use crate::commit::reversed;
use crate::commit::single_parent;
use crate::commit::UnparsedCommit;
use crate::error::ErrorKind;
use crate::error::Result;
use crate::error::SprError;
use crate::git::CommitSign;
use crate::oid::hex_text;
use crate::oid::Oid;
use crate::oid::oid_views;
use crate::repo::backend_error;
use crate::repo::from_store;
use crate::text::concat;
use vstd::prelude::*;

verus! {

/// A repository of the overlay backend.
pub struct Jujutsu {
    /// The directory of the working copy.
    pub repo_path: String,
    /// The program of the companion tool.
    pub jj_bin: String,
    /// The object store beneath.
    pub git_repo: git2::Repository,
    /// Whether and how commits are signed.
    pub sign: CommitSign,
}

/// What is said of an object store without a working copy.
pub open spec fn no_workdir_message() -> Seq<char> {
    "Repository must have a working directory"@
}

/// What is said of a working copy that the companion tool does not manage.
pub open spec fn not_jujutsu_message() -> Seq<char> {
    "This is not a Jujutsu repository. Run 'jj git init --colocate' to create one."@
}

/// What is said of a reference that does not point at a commit directly.
pub open spec fn no_target_message(ref_name: Seq<char>) -> Seq<char> {
    "Reference "@ + ref_name + " has no target"@
}

impl Jujutsu {
    /// The repository of the overlay backend over the object store
    /// `git_repo`.
    ///
    /// `workdir` is the working directory of the store, if it has one, and
    /// `has_jj_dir` says whether that directory holds the directory `.jj` of
    /// the companion tool. Both are needed: a store without a working copy is
    /// refused first, a working copy without `.jj` second.
    pub fn new(
        git_repo: git2::Repository,
        workdir: Option<String>,
        has_jj_dir: bool,
        jj_bin: String,
    ) -> (r: Result<Jujutsu>)
        ensures
            r is Ok <==> workdir is Some && has_jj_dir,
            r matches Ok(jj) ==> jj.git_repo == git_repo && jj.repo_path@ == workdir->0@
                && jj.jj_bin@ == jj_bin@,
            r matches Err(e) ==> e@.kind == ErrorKind::Backend && e@.messages == (if workdir
                is None {
                seq![no_workdir_message()]
            } else {
                seq![not_jujutsu_message()]
            }),
    {
        let repo_path = match workdir {
            Some(path) => path,
            None => {
                return Err(
                    SprError::new(
                        ErrorKind::Backend,
                        String::from_str("Repository must have a working directory"),
                    ),
                );
            },
        };
        if !has_jj_dir {
            return Err(
                SprError::new(
                    ErrorKind::Backend,
                    String::from_str(
                        "This is not a Jujutsu repository. Run 'jj git init --colocate' to create one.",
                    ),
                ),
            );
        }
        let sign = CommitSign::new(&git_repo);
        Ok(Jujutsu { repo_path, jj_bin, git_repo, sign })
    }

    /// The tree that the store records for a commit.
    pub open spec fn tree_of(&self, commit: Seq<u8>) -> Seq<u8> {
        crate::repo::tree_of(self.git_repo, commit)
    }

    /// Whether the store holds `commit` with the tree `tree`.
    pub open spec fn has_tree(&self, commit: Seq<u8>, tree: Seq<u8>) -> bool {
        crate::repo::has_tree(self.git_repo, commit, tree)
    }

    /// The trunk commit that `commit_oid` is based on: a merge base of the
    /// commit and the tip of the trunk, `master_oid`.
    pub fn get_master_base_for_commit(&self, commit_oid: Oid, master_oid: Oid) -> (r: Result<Oid>)
        ensures
            r matches Ok(base) ==> crate::repo::finds_merge_base(
                self.git_repo,
                commit_oid@,
                master_oid@,
                base@,
            ),
            r matches Err(e) ==> e@.kind == ErrorKind::Backend,
    {
        from_store(crate::repo::merge_base(&self.git_repo, commit_oid, master_oid))
    }

    /// The names of all references of the store. A reference whose name is not
    /// text is left out.
    pub fn get_all_ref_names(&self) -> (r: Result<Vec<String>>)
        ensures
            r matches Err(e) ==> e@.kind == ErrorKind::Backend,
    {
        Ok(present_names(from_store(crate::repo::reference_names(&self.git_repo))?))
    }

    /// The commit that the reference `ref_name` points at.
    pub fn resolve_reference(&self, ref_name: &str) -> (r: Result<Oid>)
        ensures
            r matches Err(e) ==> e@.kind == ErrorKind::Backend,
    {
        direct_target(from_store(crate::repo::reference_target(&self.git_repo, ref_name))?, ref_name)
    }

    /// The tree of the commit `commit_oid`. A commit whose tree is not in
    /// the store is a failure.
    pub fn get_tree_oid_for_commit(&self, commit_oid: Oid) -> (r: Result<Oid>)
        ensures
            r matches Ok(tree) ==> self.has_tree(commit_oid@, tree@),
            r matches Err(e) ==> e@.kind == ErrorKind::Backend,
    {
        from_store(crate::repo::commit_tree(&self.git_repo, commit_oid))
    }

    /// Makes a commit with the tree `tree_oid`, the parents `parent_oids`
    /// and the message `message` that stands for the commit
    /// `original_commit_oid`.
    ///
    /// The author is the author of the original commit, with the time of
    /// now. The committer is the operator as the settings name them, with the
    /// time of now, and where the settings name nobody, the committer of the
    /// original commit. The commit is signed where commits are signed.
    pub fn create_derived_commit(
        &self,
        original_commit_oid: Oid,
        message: &str,
        tree_oid: Oid,
        parent_oids: &Vec<Oid>,
    ) -> (r: Result<Oid>)
        ensures
            r matches Ok(commit) ==> self.has_tree(commit@, tree_oid@) && crate::repo::has_parents(
                self.git_repo,
                commit@,
                oid_views(parent_oids@),
            ) && crate::repo::has_message(self.git_repo, commit@, message@)
                && crate::git::is_derived_from(self.git_repo, original_commit_oid@, commit@)
                && (crate::repo::is_signed(self.git_repo, commit@) <==> self.sign is Enabled),
            r matches Err(e) ==> e@.kind == ErrorKind::Backend,
    {
        crate::git::derive_commit(
            &self.git_repo,
            &self.sign,
            original_commit_oid,
            message,
            tree_oid,
            parent_oids,
        )
    }

    /// Replays the change of `commit_oid` on `onto_oid` and gives the index
    /// that results, which may hold conflicts.
    pub fn cherrypick(&self, commit_oid: Oid, onto_oid: Oid) -> (r: Result<git2::Index>)
        ensures
            r matches Err(e) ==> e@.kind == ErrorKind::Backend,
    {
        from_store(crate::repo::cherrypick_commit(&self.git_repo, commit_oid, onto_oid))
    }

    /// Writes an index to the store as a tree.
    pub fn write_index(&self, index: git2::Index) -> (r: Result<Oid>)
        ensures
            r matches Err(e) ==> e@.kind == ErrorKind::Backend,
    {
        from_store(crate::repo::write_index(&self.git_repo, index))
    }

    /// Reads the commit `commit_oid` from the store. The commit must have
    /// exactly one parent. The record has the message that the store shows
    /// for the commit, and no text where that message is not UTF-8.
    pub fn prepare_commit(&self, commit_oid: Oid) -> (r: Result<UnparsedCommit>)
        ensures
            r matches Ok(commit) ==> commit.oid == commit_oid && commit.short_id@ == hex_text(
                commit_oid@,
            ).take(7) && crate::history::is_only_parent(
                self.git_repo,
                commit_oid@,
                commit.parent_oid@,
            ) && crate::repo::shown_messages(self.git_repo).contains_key(commit_oid@)
                && commit.message@ == shown_or_empty(
                crate::repo::shown_messages(self.git_repo)[commit_oid@],
            ),
            r matches Err(e) ==> e@.kind == ErrorKind::Backend || e@.kind == ErrorKind::Validation,
    {
        let parents = match crate::repo::commit_parent_ids(&self.git_repo, commit_oid) {
            Ok(parents) => parents,
            Err(e) => {
                return Err(backend_error(e));
            },
        };
        let parent_oid = single_parent(&parents)?;
        assert(oid_views(parents@) =~= seq![parent_oid@]);
        let message = text_or_empty(
            from_store(crate::repo::commit_message(&self.git_repo, commit_oid))?,
        );
        Ok(UnparsedCommit { oid: commit_oid, short_id: commit_oid.short_id(), parent_oid, message })
    }
}

/// The message that a repository shows for a commit, and no text where that
/// message is not UTF-8.
pub open spec fn shown_or_empty(shown: Option<Seq<char>>) -> Seq<char> {
    match shown {
        Some(text) => text,
        None => Seq::empty(),
    }
}

/// The message that the store shows for a commit, and no text where that
/// message is not UTF-8.
pub fn text_or_empty(shown: Option<String>) -> (r: String)
    ensures
        r@ == shown_or_empty(
            match shown {
                Some(text) => Some(text@),
                None => None,
            },
        ),
{
    match shown {
        Some(text) => text,
        None => {
            proof {
                reveal_strlit("");
            }
            let empty = String::from_str("");
            assert(empty@ =~= Seq::<char>::empty());
            empty
        },
    }
}

/// Whether the commits are the commits that `ids` names, in the same order.
pub open spec fn listed_as(commits: Seq<UnparsedCommit>, ids: Seq<Seq<u8>>) -> bool {
    commits.len() == ids.len() && forall|i: int|
        0 <= i < commits.len() ==> (#[trigger] commits[i]).oid@ == ids[i]
}

impl Jujutsu {
    /// The commit that the tool found for a revision, read from the store.
    /// `output` is the answer of the tool to the query for the revision.
    pub fn get_prepared_commit_for_revision(&self, output: &str) -> (r: Result<UnparsedCommit>)
        ensures
            r matches Ok(commit) ==> crate::oid::is_hex_text(crate::text::trimmed(output@))
                && commit.oid@ == crate::oid::hex_bytes(crate::text::trimmed(output@))
                && crate::history::is_only_parent(
                self.git_repo,
                commit.oid@,
                commit.parent_oid@,
            ),
            r matches Err(e) ==> e@.kind == ErrorKind::Backend || e@.kind == ErrorKind::Validation,
    {
        let commit_oid = self.resolve_revision_to_commit_id(output)?;
        self.prepare_commit(commit_oid)
    }

    /// Reads the commits `oids` from the store, in the same order. Each of
    /// them must have exactly one parent; the first that cannot be read, or
    /// has no parent or several, ends the reading with its failure.
    pub fn prepare_commits(&self, oids: &Vec<Oid>) -> (r: Result<Vec<UnparsedCommit>>)
        ensures
            r matches Ok(commits) ==> listed_as(commits@, oid_views(oids@)) && forall|i: int|
                0 <= i < commits@.len() ==> crate::history::is_only_parent(
                    self.git_repo,
                    (#[trigger] commits@[i]).oid@,
                    commits@[i].parent_oid@,
                ),
            r matches Err(e) ==> e@.kind == ErrorKind::Backend || e@.kind == ErrorKind::Validation,
    {
        let mut commits: Vec<UnparsedCommit> = Vec::new();
        let mut i: usize = 0;
        while i < oids.len()
            invariant
                i <= oids.len(),
                commits@.len() == i,
                forall|j: int|
                    0 <= j < i ==> (#[trigger] commits@[j]).oid == oids@[j]
                        && crate::history::is_only_parent(
                        self.git_repo,
                        commits@[j].oid@,
                        commits@[j].parent_oid@,
                    ),
            decreases oids.len() - i,
        {
            let commit = self.prepare_commit(oids[i])?;
            commits.push(commit);
            i = i + 1;
        }
        proof {
            assert forall|j: int| 0 <= j < commits@.len() implies (#[trigger] commits@[j]).oid@
                == oid_views(oids@)[j] by {}
        }
        Ok(commits)
    }

    /// The commits that the tool found for a range, read from the store and
    /// put in line, oldest first. `output` is the answer of the tool to the
    /// query for the range.
    ///
    /// The tool may list the commits of the range from either end. The
    /// commits come back oldest first, each the parent of the next, and a
    /// list that is no such line from either end is refused.
    pub fn get_prepared_commits_from_to(&self, output: &str) -> (r: Result<Vec<UnparsedCommit>>)
        ensures
            r matches Ok(commits) ==> {
                let listed = crate::companion::spec_commit_ids(
                    crate::text::spec_split(output@, '\n'),
                );
                &&& listed is Some
                &&& is_line(commits@)
                &&& listed_as(commits@, listed->0) || listed_as(commits@, reversed(listed->0))
                &&& forall|i: int|
                    0 <= i < commits@.len() ==> crate::history::is_only_parent(
                        self.git_repo,
                        (#[trigger] commits@[i]).oid@,
                        commits@[i].parent_oid@,
                    )
            },
            r matches Err(e) ==> e@.kind == ErrorKind::Backend || e@.kind == ErrorKind::Validation,
    {
        let oids = crate::companion::parse_commit_ids(output)?;
        let listed = self.prepare_commits(&oids)?;
        let ghost before = listed@;
        let commits = oldest_first(listed)?;
        proof {
            if !is_line(before) {
                assert forall|i: int| 0 <= i < commits@.len() implies (#[trigger] commits@[i]).oid@
                    == reversed(oid_views(oids@))[i] by {}
            }
        }
        Ok(commits)
    }

    /// Makes sure that the working copy is without changes. `output` is what
    /// the tool says of the working copy.
    pub fn check_no_uncommitted_changes(&self, output: &str) -> (r: Result<()>)
        ensures
            r is Ok <==> crate::companion::spec_is_clean(output@),
            r matches Err(e) ==> e@.kind == ErrorKind::Validation && e@.messages == seq![
                crate::companion::uncommitted_message(output@),
            ],
    {
        crate::companion::check_status(output)
    }

    /// Reads the answer of the tool to the query for the commit of a
    /// revision.
    pub fn resolve_revision_to_commit_id(&self, output: &str) -> (r: Result<Oid>)
        ensures
            r is Ok <==> crate::oid::is_hex_text(crate::text::trimmed(output@)),
            r matches Ok(oid) ==> oid@ == crate::oid::hex_bytes(crate::text::trimmed(output@)),
            r matches Err(e) ==> e@.kind == ErrorKind::Backend,
    {
        crate::companion::parse_commit_id(output)
    }

    /// Reads the answer of the tool to the query for the change of a commit.
    pub fn get_change_id_for_commit(&self, output: &str) -> (r: String)
        ensures
            r@ == crate::text::trimmed(output@),
    {
        crate::companion::parse_change_id(output)
    }

    /// The outcome of a call of the tool: what it wrote to its output, where
    /// it ended well and wrote text.
    ///
    /// `output` is what the tool wrote to its output where that is text, and
    /// `errors` what it wrote about its failure, with what is not text
    /// replaced.
    pub fn run_captured_with_args(
        &self,
        success: bool,
        code: Option<i32>,
        output: Option<String>,
        errors: &str,
    ) -> (r: Result<String>)
        ensures
            r is Ok <==> success && output is Some,
            r matches Ok(text) ==> text == output->0,
            r matches Err(e) ==> e@.kind == ErrorKind::Backend && e@.messages == (if success {
                seq![crate::companion::not_text_message()]
            } else {
                seq![crate::companion::exit_message(code, "stderr"@, errors@)]
            }),
    {
        crate::companion::captured_output(success, code, output, "stderr", errors)
    }

    /// The next commit, from the index `from` on, whose message was changed
    /// by the pass and has to be written back; `None` where there is none.
    pub fn next_rewrite(commits: &Vec<PreparedCommit>, from: usize) -> (r: Option<usize>)
        ensures
            r matches Some(i) ==> from <= i < commits@.len() && commits@[i as int].message_changed
                && forall|j: int| from <= j < i ==> !(#[trigger] commits@[j]).message_changed,
            r is None ==> forall|j: int|
                from <= j < commits@.len() ==> !(#[trigger] commits@[j]).message_changed,
    {
        let mut i: usize = from;
        while i < commits.len()
            invariant
                from <= i,
                forall|j: int| from <= j < i && j < commits@.len() ==> !(
                #[trigger] commits@[j]).message_changed,
            decreases commits.len() - i,
        {
            if commits[i].message_changed {
                return Some(i);
            }
            i = i + 1;
        }
        None
    }

    /// Takes note of the outcome of writing the message of the commit at
    /// `index` back. Where the tool has written it, the commit no longer
    /// counts as changed; where the tool failed, the writing back ends with
    /// that failure and the commit still counts as changed.
    pub fn rewrite_commit_messages(
        commits: &mut Vec<PreparedCommit>,
        index: usize,
        success: bool,
        errors: &str,
    ) -> (r: Result<()>)
        requires
            index < old(commits)@.len(),
        ensures
            final(commits)@.len() == old(commits)@.len(),
            r is Ok <==> success,
            r is Ok ==> !final(commits)@[index as int].message_changed,
            final(commits)@[index as int].oid == old(commits)@[index as int].oid,
            final(commits)@[index as int].message == old(commits)@[index as int].message,
            final(commits)@[index as int].parent_oid == old(commits)@[index as int].parent_oid,
            final(commits)@[index as int].short_id == old(commits)@[index as int].short_id,
            final(commits)@[index as int].pull_request_number == old(
                commits,
            )@[index as int].pull_request_number,
            r is Err ==> final(commits)@ == old(commits)@,
            forall|j: int|
                0 <= j < old(commits)@.len() && j != index ==> final(commits)@[j]
                    == old(commits)@[j],
            r matches Err(e) ==> e@.kind == ErrorKind::Backend && e@.messages == seq![
                crate::companion::describe_failed_message(errors@),
            ],
    {
        crate::companion::describe_outcome(success, errors)?;
        commits[index].message_changed = false;
        Ok(())
    }
}

/// The names among `names` that are there, in the same order.
pub open spec fn spec_present_names(names: Seq<Option<String>>) -> Seq<Seq<char>>
    decreases names.len(),
{
    if names.len() == 0 {
        Seq::<Seq<char>>::empty()
    } else {
        let rest = spec_present_names(names.drop_last());
        match names.last() {
            Some(name) => rest.push(name@),
            None => rest,
        }
    }
}

/// The names among `names` that are there, in the same order.
pub fn present_names(names: Vec<Option<String>>) -> (r: Vec<String>)
    ensures
        r.deep_view() == spec_present_names(names@),
{
    let mut out: Vec<String> = Vec::new();
    let mut i: usize = 0;
    while i < names.len()
        invariant
            i <= names.len(),
            out.deep_view() == spec_present_names(names@.take(i as int)),
        decreases names.len() - i,
    {
        match &names[i] {
            Some(name) => {
                out.push(name.clone());
            },
            None => {},
        }
        assert(names@.take(i + 1).drop_last() =~= names@.take(i as int));
        i = i + 1;
    }
    assert(names@.take(names@.len() as int) =~= names@);
    out
}

/// The commit that a reference points at, where it points at one directly.
pub fn direct_target(target: Option<Oid>, ref_name: &str) -> (r: Result<Oid>)
    ensures
        r is Ok <==> target is Some,
        r matches Ok(oid) ==> Some(oid) == target,
        r matches Err(e) ==> e@.kind == ErrorKind::Backend && e@.messages == seq![
            no_target_message(ref_name@),
        ],
{
    match target {
        Some(oid) => Ok(oid),
        None => {
            let mut message = concat("Reference ", ref_name);
            message.append(" has no target");
            Err(SprError::new(ErrorKind::Backend, message))
        },
    }
}

} // verus!
