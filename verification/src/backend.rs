//! The two backends behind one interface.
//!
//! The engine is written once, against what both backends can do: give the
//! tree of a commit and a merge base of two commits, replay a commit on
//! another, write the index of a replay as a tree, make a commit that stands
//! for a local commit, list the references and follow one. Which backend is
//! at work is settled once, when the repository is opened.

use crate::error::ErrorKind;
use crate::error::Result;
use crate::git::Git;
use crate::jj::Jujutsu;
use crate::oid::oid_views;
use crate::oid::Oid;
use vstd::prelude::*;

verus! {

/// A backend of either kind.
pub enum Backend {
    /// The object store alone.
    Native(Git),
    /// The object store beneath the companion tool.
    Overlay(Jujutsu),
}

impl Backend {
    /// The repository that the backend works on.
    pub open spec fn repo(&self) -> git2::Repository {
        match self {
            Backend::Native(git) => git.repo.repo,
            Backend::Overlay(jj) => jj.git_repo,
        }
    }

    /// Whether the store holds `commit` with the tree `tree`.
    pub open spec fn has_tree(&self, commit: Seq<u8>, tree: Seq<u8>) -> bool {
        crate::repo::has_tree(self.repo(), commit, tree)
    }

    /// The tree that the store records for a commit.
    pub open spec fn tree_of(&self, commit: Seq<u8>) -> Seq<u8> {
        crate::repo::tree_of(self.repo(), commit)
    }

    /// Whether `commit` has the message that a derived commit gets where
    /// `message` is asked for. The overlay backend takes the message as it
    /// is. The native backend has the store take needless white space out of
    /// it, so there the commit has the text that the store made of it.
    pub open spec fn has_derived_message(&self, commit: Seq<u8>, message: Seq<char>) -> bool {
        match self {
            Backend::Native(_) => exists|text: Seq<char>| #[trigger]
                crate::repo::has_message(self.repo(), commit, text),
            Backend::Overlay(_) => crate::repo::has_message(self.repo(), commit, message),
        }
    }

    /// Whether the backend signs the commits that it makes.
    pub open spec fn signs(&self) -> bool {
        match self {
            Backend::Native(git) => git.repo.sign is Enabled,
            Backend::Overlay(jj) => jj.sign is Enabled,
        }
    }

    /// Whether `commit` is a commit that the backend made to stand for the
    /// commit `original`: by the author of `original`, with an operator or,
    /// where there is none, the committer of `original` for its committer,
    /// and signed exactly where the backend signs.
    pub open spec fn is_derived(&self, original: Seq<u8>, commit: Seq<u8>) -> bool {
        crate::git::is_derived_from(self.repo(), original, commit) && (crate::repo::is_signed(
            self.repo(),
            commit,
        ) <==> self.signs())
    }

    /// The tree of the commit `oid`.
    pub fn get_tree_oid_for_commit(&self, oid: Oid) -> (r: Result<Oid>)
        ensures
            r matches Ok(tree) ==> self.has_tree(oid@, tree@),
            r matches Err(e) ==> e@.kind == ErrorKind::Backend,
    {
        match self {
            Backend::Native(git) => git.lock_and_get_tree_oid_for_commit(oid),
            Backend::Overlay(jj) => jj.get_tree_oid_for_commit(oid),
        }
    }

    /// A merge base of the commits `one` and `two`.
    pub fn merge_base(&self, one: Oid, two: Oid) -> (r: Result<Oid>)
        ensures
            r matches Ok(base) ==> crate::repo::finds_merge_base(self.repo(), one@, two@, base@),
            r matches Err(e) ==> e@.kind == ErrorKind::Backend,
    {
        match self {
            Backend::Native(git) => git.repo.merge_base(one, two),
            Backend::Overlay(jj) => jj.get_master_base_for_commit(one, two),
        }
    }

    /// Replays the change of `commit` on `onto` and gives the index that
    /// results, which may hold conflicts.
    pub fn cherrypick(&self, commit: Oid, onto: Oid) -> (r: Result<git2::Index>)
        ensures
            r matches Err(e) ==> e@.kind == ErrorKind::Backend,
    {
        match self {
            Backend::Native(git) => git.lock_and_cherrypick(commit, onto),
            Backend::Overlay(jj) => jj.cherrypick(commit, onto),
        }
    }

    /// Writes an index to the store as a tree.
    pub fn write_index(&self, index: git2::Index) -> (r: Result<Oid>)
        ensures
            r matches Err(e) ==> e@.kind == ErrorKind::Backend,
    {
        match self {
            Backend::Native(git) => git.lock_and_write_index(index),
            Backend::Overlay(jj) => jj.write_index(index),
        }
    }

    /// Makes a commit with the tree `tree_oid` and the parents `parent_oids`
    /// that stands for the commit `original_commit_oid`.
    pub fn create_derived_commit(
        &self,
        original_commit_oid: Oid,
        message: &str,
        tree_oid: Oid,
        parent_oids: &Vec<Oid>,
    ) -> (r: Result<Oid>)
        ensures
            r matches Ok(commit) ==> self.has_tree(commit@, tree_oid@) && crate::repo::has_parents(
                self.repo(),
                commit@,
                oid_views(parent_oids@),
            ) && self.has_derived_message(commit@, message@) && self.is_derived(
                original_commit_oid@,
                commit@,
            ),
            r matches Err(e) ==> e@.kind == ErrorKind::Backend,
    {
        match self {
            Backend::Native(git) => git.lock_and_create_derived_commit(
                original_commit_oid,
                message,
                tree_oid,
                parent_oids,
            ),
            Backend::Overlay(jj) => jj.create_derived_commit(
                original_commit_oid,
                message,
                tree_oid,
                parent_oids,
            ),
        }
    }

    /// The names of the references of the store.
    pub fn get_all_ref_names(&self) -> (r: Result<Vec<String>>)
        ensures
            r matches Err(e) ==> e@.kind == ErrorKind::Backend,
    {
        match self {
            Backend::Native(git) => git.lock_and_get_all_ref_names(),
            Backend::Overlay(jj) => jj.get_all_ref_names(),
        }
    }

    /// The commit that the reference `name` stands for.
    pub fn resolve_reference(&self, name: &str) -> (r: Result<Oid>)
        ensures
            r matches Err(e) ==> e@.kind == ErrorKind::Backend,
    {
        match self {
            Backend::Native(git) => git.lock_and_resolve_reference(name),
            Backend::Overlay(jj) => jj.resolve_reference(name),
        }
    }
}

} // verus!
