//! The native backend: the engine's operations on a repository of the object
//! store, and the detection of a companion tool beside it.

pub use crate::commit::PreparedCommit;
use crate::commit::single_parent;
use crate::commit::UnparsedCommit;
use crate::companion::JujutsuChangeData;
use crate::error::ErrorKind;
use crate::error::Result;
use crate::error::SprError;
use crate::github::GitHubBranch;
use crate::history::is_master_base;
use crate::oid::Oid;
use crate::oid::oid_views;
use crate::repo::backend_error;
use crate::person::authorship;
use crate::person::is_one_line;
use crate::person::spec_committer;
use crate::person::Person;
use crate::repo::from_store;
use crate::repo::stored_commits;
use crate::text::concat;
use crate::text::decimal;
use crate::text::decimal_text;
use crate::text::str_eq;
use crate::text::string_in;
use crate::text::to_chars;
use vstd::prelude::*;

verus! {

/// How to reach the companion tool: its program and the directory to run it
/// in.
#[derive(Debug)]
pub struct JujutsuCli {
    pub jj_bin: String,
    pub repo_path: String,
}

/// A repository that the companion tool manages beside the object store.
#[derive(Debug)]
pub struct JujutsuRepo {
    pub cli: JujutsuCli,
}

/// The identities of the commits of a stack, in the same order.
pub open spec fn commit_oids(commits: Seq<PreparedCommit>) -> Seq<Seq<u8>> {
    commits.map_values(|c: PreparedCommit| c.oid@)
}

/// Whether the last component of a path is `.git`.
pub open spec fn ends_with_dot_git(path: Seq<char>) -> bool {
    path == ".git"@ || (path.len() >= 5 && path.subrange(path.len() - 5, path.len() as int)
        == "/.git"@)
}

/// The directory that holds the last component of a path that ends in `.git`:
/// the path without `/.git`, the root where nothing else is left, and the
/// empty path for `.git` alone.
pub open spec fn dot_git_parent(path: Seq<char>) -> Seq<char> {
    if path == ".git"@ {
        Seq::<char>::empty()
    } else if path.len() == 5 {
        "/"@
    } else {
        path.subrange(0, path.len() - 5)
    }
}

/// What is said of a path whose last component is not `.git`.
pub open spec fn not_dot_git_message(path: Seq<char>) -> Seq<char> {
    "git path "@ + path + " does not end with .git"@
}

/// What is said where the companion tool names another root than the
/// directory beside the object store.
pub open spec fn not_colocated_message(path: Seq<char>, root: Seq<char>) -> Seq<char> {
    "git path "@ + path + " is not colocated with jj root "@ + root
}

/// The directory that holds `dot_git_path`, where its last component is
/// `.git`.
pub fn repo_path_of(dot_git_path: &str) -> (r: Option<String>)
    ensures
        r is Some <==> ends_with_dot_git(dot_git_path@),
        r matches Some(p) ==> p@ == dot_git_parent(dot_git_path@),
{
    proof {
        reveal_strlit(".git");
        reveal_strlit("/.git");
        reveal_strlit("/");
        reveal_strlit("");
    }
    if str_eq(dot_git_path, ".git") {
        let empty = String::from_str("");
        return Some(empty);
    }
    let chars = to_chars(dot_git_path);
    let n = chars.len();
    if n < 5 {
        return None;
    }
    if chars[n - 5] == '/' && chars[n - 4] == '.' && chars[n - 3] == 'g' && chars[n - 2] == 'i'
        && chars[n - 1] == 't' {
        assert(dot_git_path@.subrange(n - 5, n as int) =~= "/.git"@);
        if n == 5 {
            Some(String::from_str("/"))
        } else {
            Some(String::from_str(dot_git_path.substring_char(0, n - 5)))
        }
    } else {
        assert(dot_git_path@.subrange(n - 5, n as int) != "/.git"@) by {
            let tail = dot_git_path@.subrange(n - 5, n as int);
            if tail == "/.git"@ {
                assert(tail[0] == '/' && tail[1] == '.' && tail[2] == 'g' && tail[3] == 'i'
                    && tail[4] == 't');
            }
        }
        None
    }
}

impl JujutsuCli {
    /// The arguments that ask the tool for the changes and the descriptions
    /// of commits.
    pub fn change_data_query(&self, commit_ids: &Vec<Oid>) -> (r: Vec<String>)
        ensures
            r.deep_view() == crate::companion::spec_change_data_query(oid_views(commit_ids@)),
    {
        crate::companion::change_data_query(commit_ids)
    }

    /// Reads the answer of the tool to [`JujutsuCli::change_data_query`]:
    /// for each commit asked for, in the same order, the change it belongs to
    /// and the description of that change.
    pub fn convert_commits_to_jj(&self, commit_ids: &Vec<Oid>, output: &str) -> (r: Result<
        Vec<JujutsuChangeData>,
    >)
        ensures
            crate::companion::spec_converted(oid_views(commit_ids@), output@, r),
    {
        crate::companion::convert_commits_to_jj(commit_ids, output)
    }

    /// The arguments that ask the tool for the commit of a revision.
    pub fn revision_query(&self, revision: &str) -> (r: Vec<String>)
        ensures
            r.deep_view() == crate::companion::spec_revision_query(revision@),
    {
        crate::companion::revision_query(revision)
    }

    /// Reads the answer of the tool to [`JujutsuCli::revision_query`].
    pub fn resolve_revision_to_commit_id(&self, output: &str) -> (r: Result<Oid>)
        ensures
            r is Ok <==> crate::oid::is_hex_text(crate::text::trimmed(output@)),
            r matches Ok(oid) ==> oid@ == crate::oid::hex_bytes(crate::text::trimmed(output@)),
            r matches Err(e) ==> e@.kind == ErrorKind::Backend,
    {
        crate::companion::parse_commit_id(output)
    }

    /// The outcome of a call of the tool: what it wrote to its output, where
    /// it ended well and wrote text.
    ///
    /// `output` is what the tool wrote to its output where that is text, and
    /// `shown` the same with what is not text replaced.
    pub fn run_captured_with_args(
        &self,
        success: bool,
        code: Option<i32>,
        output: Option<String>,
        shown: &str,
    ) -> (r: Result<String>)
        ensures
            r is Ok <==> success && output is Some,
            r matches Ok(text) ==> text == output->0,
            r matches Err(e) ==> e@.kind == ErrorKind::Backend && e@.messages == (if success {
                seq![crate::companion::not_text_message()]
            } else {
                seq![crate::companion::exit_message(code, "stdout"@, shown@)]
            }),
    {
        crate::companion::captured_output(success, code, output, "stdout", shown)
    }
}

impl JujutsuRepo {
    /// The calls of the tool that write the messages of the local commits
    /// back: for each commit whose text differs from the description that the
    /// tool has for its change, the arguments that give the change that
    /// text.
    ///
    /// `messages` holds the text written from the sections of each commit and
    /// `output` the answer of the tool to the query for the changes of the
    /// commits.
    pub fn rewrite_commit_messages(
        &self,
        commits: &Vec<PreparedCommit>,
        messages: &Vec<String>,
        output: &str,
    ) -> (r: Result<Vec<Vec<String>>>)
        ensures
            r matches Ok(calls) ==> exists|data: Vec<JujutsuChangeData>| #[trigger]
                crate::companion::spec_converted(
                    commit_oids(commits@),
                    output@,
                    Ok::<Vec<JujutsuChangeData>, SprError>(data),
                ) && calls@.len() == crate::companion::spec_describe_calls(
                    messages.deep_view(),
                    data@,
                ).len() && forall|i: int|
                    0 <= i < calls@.len() ==> (#[trigger] calls@[i]).deep_view()
                        == crate::companion::spec_describe_calls(messages.deep_view(), data@)[i],
            r matches Err(e) ==> crate::companion::spec_converted(
                commit_oids(commits@),
                output@,
                Err::<Vec<JujutsuChangeData>, SprError>(e),
            ),
    {
        let mut oids: Vec<Oid> = Vec::new();
        let mut i: usize = 0;
        while i < commits.len()
            invariant
                i <= commits.len(),
                oids@.len() == i,
                forall|j: int| 0 <= j < i ==> (#[trigger] oids@[j]) == commits@[j].oid,
            decreases commits.len() - i,
        {
            oids.push(commits[i].oid);
            i = i + 1;
        }
        assert(oid_views(oids@) =~= commit_oids(commits@));
        match self.cli.convert_commits_to_jj(&oids, output) {
            Ok(data) => Ok(crate::companion::describe_calls(messages, &data)),
            Err(e) => Err(e),
        }
    }

    /// Decides whether the object store at `dot_git_path` stands beside a
    /// repository of the companion tool.
    ///
    /// `dot_git_path` is the canonical path of the object store, `jj_bin` the
    /// program of the companion tool, and `jj_root` the canonical path of the
    /// root that the tool names when it is run in the directory that holds
    /// `dot_git_path`. Paths are written with `/` between their components.
    ///
    /// The store stands beside such a repository when the last component of
    /// its path is `.git` and the directory that holds it is that root.
    pub fn from_git_path(dot_git_path: &str, jj_bin: &str, jj_root: &str) -> (r: Result<
        JujutsuRepo,
    >)
        ensures
            r is Ok <==> ends_with_dot_git(dot_git_path@) && jj_root@ == dot_git_parent(
                dot_git_path@,
            ),
            r matches Ok(repo) ==> repo.cli.jj_bin@ == jj_bin@ && repo.cli.repo_path@
                == dot_git_parent(dot_git_path@),
            r matches Err(e) ==> e@.kind == ErrorKind::Backend && e@.messages == (if
                !ends_with_dot_git(dot_git_path@) {
                seq![not_dot_git_message(dot_git_path@)]
            } else {
                seq![not_colocated_message(dot_git_path@, jj_root@)]
            }),
    {
        let repo_path = match repo_path_of(dot_git_path) {
            Some(p) => p,
            None => {
                let mut message = concat("git path ", dot_git_path);
                message.append(" does not end with .git");
                return Err(SprError::new(ErrorKind::Backend, message));
            },
        };
        if !str_eq(jj_root, repo_path.as_str()) {
            let mut message = concat("git path ", dot_git_path);
            message.append(" is not colocated with jj root ");
            message.append(jj_root);
            return Err(SprError::new(ErrorKind::Backend, message));
        }
        Ok(JujutsuRepo { cli: JujutsuCli { jj_bin: String::from_str(jj_bin), repo_path } })
    }
}

/// Whether and how the operator signs commits.
pub enum CommitSign {
    /// Commits are signed, in this way.
    Enabled(git2_ext::ops::UserSign),
    /// Commits are to be signed, but how could not be found out; they are
    /// made without a signature.
    EnabledButError,
    /// Commits are not signed.
    Disabled,
}

impl CommitSign {
    /// Whether commits are to be signed: the setting is there and is true.
    pub fn enabled(setting: std::result::Result<bool, git2::Error>) -> (r: bool)
        ensures
            r == (setting matches Ok(on) && on),
    {
        match setting {
            Ok(on) => on,
            Err(_) => false,
        }
    }

    /// How commits are signed where they are to be signed: in the way that
    /// was found, or not at all where none was found.
    pub fn with(sign: std::result::Result<git2_ext::ops::UserSign, git2::Error>) -> (r:
        CommitSign)
        ensures
            sign matches Ok(way) ==> r == CommitSign::Enabled(way),
            sign is Err ==> r is EnabledButError,
    {
        match sign {
            Ok(way) => CommitSign::Enabled(way),
            Err(_) => CommitSign::EnabledButError,
        }
    }

    /// Reads from the settings of the repository whether and how commits are
    /// signed. Signing is on where `commit.gpgsign` is read as true.
    pub fn new(repo: &git2::Repository) -> (r: CommitSign) {
        if CommitSign::enabled(crate::repo::config_get_bool(repo, "commit.gpgsign")) {
            CommitSign::with(crate::repo::user_sign_from_config(repo))
        } else {
            CommitSign::Disabled
        }
    }

    /// The way to sign a commit, where commits are signed.
    pub fn as_sign(&self) -> (r: Option<&git2_ext::ops::UserSign>)
        ensures
            r is Some <==> self is Enabled,
            r matches Some(sign) ==> *sign == self->Enabled_0,
    {
        match self {
            CommitSign::Enabled(sign) => Some(sign),
            _ => None,
        }
    }
}

/// A repository of the object store with its hooks and the way to sign
/// commits. There is one handle to a repository, and whoever holds it is the
/// only one to work on the store.
pub struct GitRepo {
    pub repo: git2::Repository,
    pub hooks: git2_ext::hooks::Hooks,
    pub sign: CommitSign,
}

impl GitRepo {
    /// The handle to `repo`.
    pub fn new(repo: git2::Repository) -> (r: Result<GitRepo>)
        ensures
            r matches Ok(handle) ==> handle.repo == repo,
            r matches Err(e) ==> e@.kind == ErrorKind::Backend,
    {
        let hooks = match crate::repo::hooks_with_repo(&repo) {
            Ok(hooks) => hooks,
            Err(e) => {
                return Err(backend_error(e));
            },
        };
        match crate::repo::check_config(&repo) {
            Ok(()) => {},
            Err(e) => {
                return Err(
                    backend_error(e).context(String::from_str("failed to read repo config")),
                );
            },
        }
        let sign = CommitSign::new(&repo);
        Ok(GitRepo { repo, hooks, sign })
    }

    /// A merge base of the commits `one` and `two`.
    pub fn merge_base(&self, one: Oid, two: Oid) -> (r: Result<Oid>)
        ensures
            r matches Ok(base) ==> crate::repo::finds_merge_base(self.repo, one@, two@, base@),
            r matches Err(e) ==> e@.kind == ErrorKind::Backend,
    {
        from_store(crate::repo::merge_base(&self.repo, one, two))
    }

    /// Makes a commit with the tree `tree`, the parents `parents` and the
    /// message `message`, by `author` and `committer`, both at the time of
    /// now, signed where commits are signed.
    pub fn commit(
        &self,
        author: &Person,
        committer: &Person,
        message: &str,
        tree: Oid,
        parents: &Vec<Oid>,
    ) -> (r: Result<Oid>)
        ensures
            r matches Ok(commit) ==> made_by(
                self.repo,
                commit@,
                tree@,
                oid_views(parents@),
                message@,
                author@,
                committer@,
            ) && (crate::repo::is_signed(self.repo, commit@) <==> self.sign is Enabled),
            !is_one_line(author@) || !is_one_line(committer@) ==> r is Err,
            r matches Err(e) ==> e@.kind == ErrorKind::Backend,
    {
        commit_by(&self.repo, &self.sign, author, committer, message, tree, parents)
    }

    /// Makes a commit like `source`, with another message, tree and parent,
    /// and tells the hooks of the repository that `source` was rewritten into
    /// it. The new commit is by the author and the committer of `source`,
    /// each with the time that `source` has for them, and it is signed where
    /// commits are signed.
    pub fn commit_like(&self, source: Oid, message: &str, tree: Oid, parent: Oid) -> (r: Result<
        Oid,
    >)
        ensures
            r matches Ok(commit) ==> crate::repo::has_tree(self.repo, commit@, tree@)
                && crate::repo::has_parents(self.repo, commit@, seq![parent@])
                && crate::repo::has_message(self.repo, commit@, message@) && same_people(
                self.repo,
                source@,
                commit@,
            ) && (crate::repo::is_signed(self.repo, commit@) <==> self.sign is Enabled),
            r matches Err(e) ==> e@.kind == ErrorKind::Backend,
    {
        let made = match self.sign.as_sign() {
            Some(sign) => crate::repo::recommit_signed(
                &self.repo,
                sign,
                source,
                message,
                tree,
                parent,
            ),
            None => crate::repo::recommit(&self.repo, source, message, tree, parent),
        };
        let commit = from_store(made)?;
        crate::repo::run_post_rewrite_rebase(&self.repo, &self.hooks, source, commit);
        Ok(commit)
    }
}

/// Whether the repository shows for the commit `commit` the author and the
/// committer that it shows for the commit `source`.
pub open spec fn same_people(repo: git2::Repository, source: Seq<u8>, commit: Seq<u8>) -> bool {
    crate::repo::stored_people(repo).contains_key(source) && crate::repo::stored_people(
        repo,
    ).contains_key(commit) && crate::repo::stored_people(repo)[commit]
        == crate::repo::stored_people(repo)[source]
}

/// Whether the repository holds the commit `commit` with the given tree,
/// parents and message, and shows for it the people `author` and
/// `committer` as a commit records them.
pub open spec fn made_by(
    repo: git2::Repository,
    commit: Seq<u8>,
    tree: Seq<u8>,
    parents: Seq<Seq<u8>>,
    message: Seq<char>,
    author: (Seq<char>, Seq<char>),
    committer: (Seq<char>, Seq<char>),
) -> bool {
    &&& crate::repo::has_tree(repo, commit, tree)
    &&& crate::repo::has_parents(repo, commit, parents)
    &&& crate::repo::has_message(repo, commit, message)
    &&& crate::repo::has_author(repo, commit, crate::person::recorded(author))
    &&& crate::repo::has_committer(repo, commit, crate::person::recorded(committer))
}

/// What is said of a person whose name or address holds a line end.
pub open spec fn line_end_message() -> Seq<char> {
    "The name or the address of a person holds a line end"@
}

/// How the messages of local commits are written back.
#[derive(Debug, Clone, Copy, PartialEq, Eq, Structural)]
pub enum Rewrite {
    /// The commits were rewritten in the object store.
    Native,
    /// The repository belongs to the companion tool, which has to write the
    /// messages; nothing was done.
    Companion,
}

/// The native backend.
pub struct Git {
    pub repo: GitRepo,
    pub jj: Option<JujutsuRepo>,
}

/// What is said where a revision is named and there is no companion tool to
/// read it.
pub open spec fn revision_unsupported_message() -> Seq<char> {
    "--revision option is only supported in Jujutsu repositories"@
}

/// What is said where a revision is named and the companion tool found no
/// commit for it.
pub open spec fn unresolved_message() -> Seq<char> {
    "The revision was not resolved to a commit"@
}

/// What is said where the head points at no commit.
pub open spec fn no_head_message() -> Seq<char> {
    "Cannot resolve HEAD"@
}

/// What is said of a working copy with changes.
pub open spec fn uncommitted_message() -> Seq<char> {
    "There are uncommitted changes. Stash or amend them first"@
}

/// What is said where replaying a commit on its new parent gives conflicts.
pub open spec fn rebase_conflict_message() -> Seq<char> {
    "Rebase failed due to merge conflicts"@
}

/// The `count`-th name that is tried for the branch of a patch: `PR-` and the
/// number of the pull request, and from the second on a hyphen and the count
/// behind them.
pub open spec fn spec_patch_branch_name(pr_number: u64, count: u64) -> Seq<char> {
    if count == 0 {
        "PR-"@ + decimal_text(pr_number as nat)
    } else {
        "PR-"@ + decimal_text(pr_number as nat) + "-"@ + decimal_text(count as nat)
    }
}

/// Whether the `count`-th name for the branch of a patch is taken by a local
/// branch.
pub open spec fn spec_patch_name_taken(
    existing: Seq<Seq<char>>,
    pr_number: u64,
    count: u64,
) -> bool {
    existing.contains("refs/heads/"@ + spec_patch_branch_name(pr_number, count))
}

/// The first name for the branch of a patch that no local branch has.
pub fn patch_branch_name(existing: &Vec<String>, pr_number: u64) -> (r: Result<String>)
    ensures
        r matches Ok(name) ==> exists|k: u64|
            {
                &&& name@ == spec_patch_branch_name(pr_number, k)
                &&& !#[trigger] spec_patch_name_taken(existing.deep_view(), pr_number, k)
                &&& forall|j: u64|
                    j < k ==> #[trigger] spec_patch_name_taken(existing.deep_view(), pr_number, j)
            },
        r matches Err(e) ==> e@.kind == ErrorKind::Backend && forall|j: u64|
            j < u64::MAX ==> #[trigger] spec_patch_name_taken(existing.deep_view(), pr_number, j),
{
    let digits = decimal(pr_number);
    let mut count: u64 = 0;
    let mut name = concat("PR-", digits.as_str());
    while count < u64::MAX
        invariant
            digits@ == decimal_text(pr_number as nat),
            name@ == spec_patch_branch_name(pr_number, count),
            forall|j: u64|
                j < count ==> #[trigger] spec_patch_name_taken(existing.deep_view(), pr_number, j),
        decreases u64::MAX - count,
    {
        let full = concat("refs/heads/", name.as_str());
        if !string_in(existing, full.as_str()) {
            assert(!spec_patch_name_taken(existing.deep_view(), pr_number, count));
            return Ok(name);
        }
        count = count + 1;
        name = concat("PR-", digits.as_str());
        name.append("-");
        let suffix = decimal(count);
        name.append(suffix.as_str());
    }
    Err(SprError::new(ErrorKind::Backend, String::from_str("No unused branch name is left")))
}

/// The names among `names`, where all of them are text.
pub fn all_names(names: Vec<Option<String>>) -> (r: Result<Vec<String>>)
    ensures
        r is Ok <==> forall|i: int| 0 <= i < names@.len() ==> (#[trigger] names@[i]) is Some,
        r matches Ok(list) ==> list@.len() == names@.len() && forall|i: int|
            0 <= i < names@.len() ==> (#[trigger] list@[i])@ == names@[i]->0@,
        r matches Err(e) ==> e@.kind == ErrorKind::Backend,
{
    let mut out: Vec<String> = Vec::new();
    let mut i: usize = 0;
    while i < names.len()
        invariant
            i <= names.len(),
            out@.len() == i,
            forall|j: int| 0 <= j < i ==> (#[trigger] names@[j]) is Some,
            forall|j: int| 0 <= j < i ==> (#[trigger] out@[j])@ == names@[j]->0@,
        decreases names.len() - i,
    {
        match &names[i] {
            Some(name) => {
                out.push(name.clone());
            },
            None => {
                return Err(
                    SprError::new(
                        ErrorKind::Backend,
                        String::from_str("The name of a reference is not valid UTF-8"),
                    ),
                );
            },
        }
        i = i + 1;
    }
    Ok(out)
}

/// The commits among `commits` that are not held, each by its identity in
/// hexadecimal and in the same order; `held` says of each commit whether it
/// is held. Where it does not say so of each, none is named.
pub open spec fn spec_missing_commits(commits: Seq<Seq<u8>>, held: Seq<bool>) -> Seq<Seq<char>>
    decreases commits.len(),
{
    if commits.len() == 0 || held.len() != commits.len() {
        Seq::<Seq<char>>::empty()
    } else {
        let rest = spec_missing_commits(commits.drop_last(), held.drop_last());
        if held.last() {
            rest
        } else {
            rest.push(crate::oid::hex_text(commits.last()))
        }
    }
}

/// The commits among `commit_oids` that are not held, each by its identity in
/// hexadecimal and in the same order. Where `held` does not say of each
/// commit whether it is held, none is named.
pub fn missing_commits(commit_oids: &Vec<Oid>, held: &Vec<bool>) -> (r: Vec<String>)
    ensures
        r.deep_view() == spec_missing_commits(oid_views(commit_oids@), held@),
{
    let mut missing: Vec<String> = Vec::new();
    if held.len() != commit_oids.len() {
        assert(missing.deep_view() =~= Seq::<Seq<char>>::empty());
        return missing;
    }
    let ghost commits = oid_views(commit_oids@);
    let mut i: usize = 0;
    assert(commits.take(0) =~= Seq::<Seq<u8>>::empty());
    while i < commit_oids.len()
        invariant
            i <= commit_oids.len(),
            held@.len() == commit_oids@.len(),
            commits == oid_views(commit_oids@),
            missing.deep_view() == spec_missing_commits(commits.take(i as int), held@.take(i as int)),
        decreases commit_oids.len() - i,
    {
        let ghost before = missing.deep_view();
        proof {
            assert(commits.take(i + 1).drop_last() =~= commits.take(i as int));
            assert(held@.take(i + 1).drop_last() =~= held@.take(i as int));
        }
        if !held[i] {
            missing.push(commit_oids[i].to_hex());
            assert(missing.deep_view() =~= before.push(crate::oid::hex_text(commit_oids@[i as int]@)));
        }
        i = i + 1;
    }
    proof {
        assert(commits.take(commit_oids@.len() as int) =~= commits);
        assert(held@.take(commit_oids@.len() as int) =~= held@);
    }
    missing
}

/// The full names that the branches have on the hosting service, in the same
/// order.
pub open spec fn spec_names_on_github(refs: Seq<GitHubBranch>) -> Seq<Seq<char>> {
    Seq::new(refs.len(), |i: int| refs[i].ref_on_github@)
}

/// The arguments of a fetch of `items` from `remote`, and `None` where there
/// is nothing to fetch.
pub open spec fn spec_fetch_args(remote: Seq<char>, items: Seq<Seq<char>>) -> Option<
    Seq<Seq<char>>,
> {
    if items.len() == 0 {
        None
    } else {
        Some(seq!["fetch"@, "--no-write-fetch-head"@, "--"@, remote] + items)
    }
}

/// The arguments of a fetch of `items` from `remote`.
pub fn fetch_args(remote: &str, items: &Vec<String>) -> (r: Option<Vec<String>>)
    ensures
        (match r {
            Some(args) => Some(args.deep_view()),
            None => None,
        }) == spec_fetch_args(remote@, items.deep_view()),
{
    if items.len() == 0 {
        return None;
    }
    let mut args: Vec<String> = Vec::new();
    args.push(String::from_str("fetch"));
    args.push(String::from_str("--no-write-fetch-head"));
    args.push(String::from_str("--"));
    args.push(String::from_str(remote));
    let ghost fixed = seq!["fetch"@, "--no-write-fetch-head"@, "--"@, remote@];
    let mut i: usize = 0;
    while i < items.len()
        invariant
            i <= items.len(),
            args.deep_view() == fixed + items.deep_view().take(i as int),
        decreases items.len() - i,
    {
        let ghost before = args.deep_view();
        args.push(items[i].clone());
        proof {
            assert(args.deep_view() =~= before.push(items@[i as int]@));
        }
        i = i + 1;
    }
    Some(args)
}

/// Whether `to` is what the replay of the commit `source` on the commit
/// `from` leaves where the replay gave the tree `tree`. A replay that
/// changed nothing, whose tree is the tree of `from`, leaves `from`. Any
/// other leaves a commit with the tree of the replay, with `from` for its one
/// parent, with the text that the repository shows for the message of
/// `source`, and by the author and the committer of `source`.
pub open spec fn is_replay(
    repo: git2::Repository,
    source: Seq<u8>,
    from: Seq<u8>,
    to: Seq<u8>,
    tree: Seq<u8>,
) -> bool {
    &&& stored_commits(repo).contains_key(from)
    &&& if tree == crate::repo::tree_of(repo, from) {
        to == from
    } else {
        &&& crate::repo::has_tree(repo, to, tree)
        &&& crate::repo::has_parents(repo, to, seq![from])
        &&& crate::repo::shown_texts(repo).contains_key(source)
        &&& crate::repo::has_message(repo, to, crate::repo::shown_texts(repo)[source])
        &&& same_people(repo, source, to)
    }
}

/// Whether `line` leads from a commit to the tip of a rebase of `commits`
/// whose replays gave the trees `trees`: each commit of it but the first is
/// what the replay of the next of `commits` on the commit before it leaves.
pub open spec fn is_rebased_line(
    repo: git2::Repository,
    commits: Seq<PreparedCommit>,
    line: Seq<Seq<u8>>,
    trees: Seq<Seq<u8>>,
) -> bool {
    &&& line.len() == commits.len() + 1
    &&& trees.len() == commits.len()
    &&& forall|k: int|
        0 <= k < commits.len() ==> is_replay(
            repo,
            (#[trigger] commits[k]).oid@,
            line[k],
            line[k + 1],
            trees[k],
        )
}

/// What is said where the working copy cannot be set to the new commits.
pub open spec fn checkout_message() -> Seq<char> {
    "Could not check out rebased branch - please rebase manually"@
}

/// The outcome of the replay of a local commit on its new parent: a failure
/// where the index holds conflicts.
pub fn check_rebase_replay(has_conflicts: bool) -> (r: Result<()>)
    ensures
        r is Err <==> has_conflicts,
        r matches Err(e) ==> e@.kind == ErrorKind::Conflict && e@.messages == seq![
            rebase_conflict_message(),
        ],
{
    if has_conflicts {
        Err(
            SprError::new(
                ErrorKind::Conflict,
                String::from_str("Rebase failed due to merge conflicts"),
            ),
        )
    } else {
        Ok(())
    }
}

/// The outcome of setting the working copy to the new commits: where the
/// store fails, a failure that tells the operator to rebase by hand.
pub fn check_checkout(outcome: std::result::Result<(), git2::Error>) -> (r: Result<()>)
    ensures
        r is Ok <==> outcome is Ok,
        r matches Err(e) ==> e@.kind == ErrorKind::Backend && e@.messages == seq![
            checkout_message(),
        ],
{
    match outcome {
        Ok(()) => Ok(()),
        Err(e) => Err(
            backend_error(e).reword(
                String::from_str("Could not check out rebased branch - please rebase manually"),
            ),
        ),
    }
}

/// Whether two records of a commit differ in the identity of the commit at
/// most.
pub open spec fn same_but_oid(a: PreparedCommit, b: PreparedCommit) -> bool {
    &&& a.message == b.message
    &&& a.parent_oid == b.parent_oid
    &&& a.short_id == b.short_id
    &&& a.pull_request_number == b.pull_request_number
    &&& a.message_changed == b.message_changed
}

/// Whether the commit at `i` of `after` was made anew from the commit at `i`
/// of `before`: with the tree it had, with the commit before it, as it is
/// now, for its one parent, and by the author and the committer that it
/// had.
pub open spec fn made_anew(
    repo: git2::Repository,
    before: Seq<PreparedCommit>,
    after: Seq<PreparedCommit>,
    i: int,
) -> bool {
    &&& stored_commits(repo).contains_key(before[i].oid@)
    &&& stored_commits(repo).contains_key(after[i].oid@)
    &&& stored_commits(repo)[after[i].oid@].0 == stored_commits(repo)[before[i].oid@].0
    &&& stored_commits(repo)[after[i].oid@].1 == seq![
        if i == 0 {
            before[0].parent_oid@
        } else {
            after[i - 1].oid@
        },
    ]
    &&& same_people(repo, before[i].oid@, after[i].oid@)
}

/// How many of `count` commits take their new text: all of them without a
/// limit, and the first `limit` with one.
pub open spec fn spec_rewrite_bound(limit: Option<usize>, count: int) -> int {
    match limit {
        Some(n) => if n < count {
            n as int
        } else {
            count
        },
        None => count,
    }
}

/// Whether the text written for the commit at `i` differs from the message
/// that the repository shows for that commit.
pub open spec fn text_differs(
    repo: git2::Repository,
    commits: Seq<PreparedCommit>,
    messages: Seq<Seq<char>>,
    i: int,
) -> bool {
    !crate::repo::shows_message(repo, commits[i].oid@, Some(messages[i]))
}

/// Whether `first` is where the writing back of messages starts: the first
/// of the commits that take their new text whose text differs from the
/// message it has, and the number of the commits where there is none.
pub open spec fn is_first_to_rewrite(
    repo: git2::Repository,
    commits: Seq<PreparedCommit>,
    messages: Seq<Seq<char>>,
    limit: Option<usize>,
    first: int,
) -> bool {
    &&& forall|i: int|
        0 <= i < first && i < spec_rewrite_bound(limit, commits.len() as int)
            ==> !#[trigger] text_differs(repo, commits, messages, i)
    &&& first == commits.len() || (0 <= first < spec_rewrite_bound(limit, commits.len() as int)
        && text_differs(repo, commits, messages, first))
}

/// Whether a text is new to a commit: it differs from the message that the
/// store shows for the commit, of which `None` stands for one that is not
/// UTF-8.
pub fn is_new_text(current: &Option<String>, text: &str) -> (r: bool)
    ensures
        r == ((match current {
            Some(shown) => Some(shown@),
            None => None,
        }) != Some(text@)),
{
    match current {
        Some(shown) => !str_eq(shown.as_str(), text),
        None => true,
    }
}

/// Whether the commit at `i` of `after` has the message that the writing back
/// gives it. A commit that takes its new text, which all do without a limit
/// and the first `limit` with one, has the text that was written from its
/// sections. Any other has the text that the repository shows for the commit
/// at `i` of `before`.
pub open spec fn has_new_text(
    repo: git2::Repository,
    before: Seq<PreparedCommit>,
    after: Seq<PreparedCommit>,
    messages: Seq<Seq<char>>,
    limit: Option<usize>,
    i: int,
) -> bool {
    if limit is None || i < limit->0 {
        crate::repo::has_message(repo, after[i].oid@, messages[i])
    } else {
        crate::repo::shown_texts(repo).contains_key(before[i].oid@) && crate::repo::has_message(
            repo,
            after[i].oid@,
            crate::repo::shown_texts(repo)[before[i].oid@],
        )
    }
}

/// Whether the local commits `after` are the commits `before` with their
/// messages written back, from the commit at `first` up to the commit at
/// `upto`: the commits before `first` and from `upto` on are as they were, and
/// each commit between them was made anew.
pub open spec fn rewritten_between(
    repo: git2::Repository,
    before: Seq<PreparedCommit>,
    after: Seq<PreparedCommit>,
    first: int,
    upto: int,
) -> bool {
    &&& after.len() == before.len()
    &&& 0 <= first <= upto <= before.len()
    &&& forall|i: int| 0 <= i < before.len() ==> #[trigger] same_but_oid(after[i], before[i])
    &&& forall|i: int|
        0 <= i < first || upto <= i < before.len() ==> (#[trigger] after[i]).oid == before[i].oid
    &&& forall|i: int| first <= i < upto ==> #[trigger] made_anew(repo, before, after, i)
}

/// Whether the local commits `after` are the commits `before` with their
/// messages written back, from the commit at `first` on.
pub open spec fn rewritten_from(
    repo: git2::Repository,
    before: Seq<PreparedCommit>,
    after: Seq<PreparedCommit>,
    first: int,
) -> bool {
    rewritten_between(repo, before, after, first, before.len() as int)
}

/// The commit that the head is set to when the messages have been written
/// back: the last of the commits where commits were made anew, and none
/// where all were left as they are.
pub fn rewritten_head(rewritten: bool, commits: &Vec<PreparedCommit>) -> (r: Option<Oid>)
    ensures
        r == (if rewritten && commits@.len() > 0 {
            Some(commits@.last().oid)
        } else {
            None
        }),
{
    if rewritten && commits.len() > 0 {
        Some(commits[commits.len() - 1].oid)
    } else {
        None
    }
}

/// Where the text written for each of the commits that take their new text
/// is the message that the repository shows for the commit, writing the
/// messages back leaves every commit as it is.
pub proof fn lemma_same_texts_rewrite_nothing(
    repo: git2::Repository,
    before: Seq<PreparedCommit>,
    after: Seq<PreparedCommit>,
    messages: Seq<Seq<char>>,
    limit: Option<usize>,
    first: int,
)
    requires
        rewritten_from(repo, before, after, first),
        is_first_to_rewrite(repo, before, messages, limit, first),
        forall|i: int|
            0 <= i < spec_rewrite_bound(limit, before.len() as int) ==> !#[trigger] text_differs(
                repo,
                before,
                messages,
                i,
            ),
    ensures
        first == before.len(),
        forall|i: int| 0 <= i < before.len() ==> (#[trigger] after[i]).oid == before[i].oid,
{
}

/// Where the commits up to `i` are rewritten and the commit at `i` is made
/// anew, the commits up to and with `i` are rewritten.
proof fn lemma_one_more_rewritten(
    repo: git2::Repository,
    original: Seq<PreparedCommit>,
    before: Seq<PreparedCommit>,
    after: Seq<PreparedCommit>,
    first: int,
    i: int,
)
    requires
        rewritten_between(repo, original, before, first, i),
        first <= i < original.len(),
        after.len() == before.len(),
        forall|j: int| 0 <= j < before.len() && j != i ==> after[j] == before[j],
        same_but_oid(after[i], before[i]),
        stored_commits(repo).contains_key(original[i].oid@),
        stored_commits(repo).contains_key(after[i].oid@),
        stored_commits(repo)[after[i].oid@].0 == stored_commits(repo)[original[i].oid@].0,
        stored_commits(repo)[after[i].oid@].1 == seq![
            if i == 0 {
                original[0].parent_oid@
            } else {
                before[i - 1].oid@
            },
        ],
        same_people(repo, original[i].oid@, after[i].oid@),
    ensures
        rewritten_between(repo, original, after, first, i + 1),
{
    assert forall|j: int| 0 <= j < original.len() implies #[trigger] same_but_oid(
        after[j],
        original[j],
    ) by {
        assert(same_but_oid(before[j], original[j]));
    }
    assert forall|j: int| first <= j < i + 1 implies #[trigger] made_anew(
        repo,
        original,
        after,
        j,
    ) by {
        if j < i {
            assert(made_anew(repo, original, before, j));
        }
    }
}

impl Git {
    /// The native backend on `repo`. `jj` says whether the repository stands
    /// beside one of the companion tool.
    pub fn new(repo: git2::Repository, jj: Result<JujutsuRepo>) -> (r: Result<Git>)
        ensures
            r matches Ok(git) ==> git.repo.repo == repo && (git.jj is Some <==> jj is Ok),
            r matches Err(e) ==> e@.kind == ErrorKind::Backend,
    {
        let jj = match jj {
            Ok(cli) => Some(cli),
            Err(_) => None,
        };
        Ok(Git { repo: GitRepo::new(repo)?, jj })
    }

    /// The commits between the trunk and the head, oldest first.
    pub fn lock_and_get_commit_oids(&self, master_ref: &str) -> (r: Result<Vec<Oid>>)
        ensures
            r matches Err(e) ==> e@.kind == ErrorKind::Backend,
    {
        from_store(crate::repo::walk_from_head(&self.repo.repo, master_ref))
    }

    /// Reads the commits between the trunk and the head from the store and
    /// gives them oldest first, each the parent of the next. Commits that are
    /// no such line are refused.
    pub fn lock_and_get_prepared_commits(&self, master_ref: &str) -> (r: Result<
        Vec<UnparsedCommit>,
    >)
        ensures
            r matches Ok(commits) ==> crate::commit::is_line(commits@) && forall|i: int|
                0 <= i < commits@.len() ==> crate::history::is_only_parent(
                    self.repo.repo,
                    (#[trigger] commits@[i]).oid@,
                    commits@[i].parent_oid@,
                ),
            r matches Err(e) ==> e@.kind == ErrorKind::Backend || e@.kind == ErrorKind::Validation,
    {
        let oids = self.lock_and_get_commit_oids(master_ref)?;
        let walked = self.prepare_commits(&oids)?;
        let ghost before = walked@;
        let commits = crate::commit::oldest_first(walked)?;
        proof {
            if !crate::commit::is_line(before) {
                assert forall|i: int| 0 <= i < commits@.len() implies crate::history::is_only_parent(
                    self.repo.repo,
                    (#[trigger] commits@[i]).oid@,
                    commits@[i].parent_oid@,
                ) by {
                    assert(commits@[i] == before[before.len() - 1 - i]);
                }
            }
        }
        Ok(commits)
    }

    /// Reads the commits `oids` from the store, in the same order. Each of
    /// them must have exactly one parent; the first that cannot be read, or
    /// has no parent or several, ends the reading with its failure.
    pub fn prepare_commits(&self, oids: &Vec<Oid>) -> (r: Result<Vec<UnparsedCommit>>)
        ensures
            r matches Ok(commits) ==> commits@.len() == oids@.len() && forall|i: int|
                0 <= i < commits@.len() ==> (#[trigger] commits@[i]).oid == oids@[i]
                    && crate::history::is_only_parent(
                    self.repo.repo,
                    commits@[i].oid@,
                    commits@[i].parent_oid@,
                ),
            r matches Err(e) ==> e@.kind == ErrorKind::Backend || e@.kind == ErrorKind::Validation,
    {
        let mut commits: Vec<UnparsedCommit> = Vec::new();
        let mut i: usize = 0;
        while i < oids.len()
            invariant
                i <= oids.len(),
                commits@.len() == i,
                forall|j: int|
                    0 <= j < i ==> (#[trigger] commits@[j]).oid == oids@[j]
                        && crate::history::is_only_parent(
                        self.repo.repo,
                        commits@[j].oid@,
                        commits@[j].parent_oid@,
                    ),
            decreases oids.len() - i,
        {
            let commit = self.lock_and_prepare_commit(oids[i])?;
            commits.push(commit);
            i = i + 1;
        }
        Ok(commits)
    }

    /// Reads the commits to work on from the store: the one commit that the
    /// companion tool finds for `revision`, or, where no revision is named,
    /// the commits between the trunk and the head.
    ///
    /// `resolved` is the commit that the companion tool found for the
    /// revision. A revision can only be named where there is a companion tool.
    pub fn lock_and_get_prepared_commits_for_revision(
        &self,
        master_ref: &str,
        revision: Option<&str>,
        resolved: Option<Oid>,
    ) -> (r: Result<Vec<UnparsedCommit>>)
        ensures
            revision is Some && self.jj is None ==> (r matches Err(e) && e@.kind
                == ErrorKind::Validation && e@.messages == seq![revision_unsupported_message()]),
            (revision is Some && resolved is Some) ==> (r matches Ok(commits) ==> commits@.len()
                == 1 && commits@[0].oid == resolved->0),
            revision is Some && self.jj is Some && resolved is None ==> (r matches Err(e) && e@.kind
                == ErrorKind::Backend && e@.messages == seq![unresolved_message()]),
            r matches Ok(commits) ==> crate::commit::is_line(commits@) && forall|i: int|
                0 <= i < commits@.len() ==> crate::history::is_only_parent(
                    self.repo.repo,
                    (#[trigger] commits@[i]).oid@,
                    commits@[i].parent_oid@,
                ),
            r matches Err(e) ==> e@.kind == ErrorKind::Backend || e@.kind == ErrorKind::Validation,
    {
        match revision {
            Some(_) => {
                if self.jj.is_none() {
                    return Err(
                        SprError::new(
                            ErrorKind::Validation,
                            String::from_str(
                                "--revision option is only supported in Jujutsu repositories",
                            ),
                        ),
                    );
                }
                match resolved {
                    Some(oid) => {
                        let commit = self.lock_and_prepare_commit(oid)?;
                        let mut commits: Vec<UnparsedCommit> = Vec::new();
                        commits.push(commit);
                        Ok(commits)
                    },
                    None => Err(
                        SprError::new(
                            ErrorKind::Backend,
                            String::from_str("The revision was not resolved to a commit"),
                        ),
                    ),
                }
            },
            None => self.lock_and_get_prepared_commits(master_ref),
        }
    }

    /// Writes the messages of the local commits back into the store.
    ///
    /// `messages` holds, for each commit, the text written from its sections.
    /// The commits are gone through oldest first. From the first commit whose
    /// text differs from the message it has, every commit is made anew, on top
    /// of the one before it, and takes the identity of the new commit. The
    /// hooks of the repository are told of each commit that it was rewritten
    /// into the new one, and at the end the reference that the head leads to
    /// is set to the commit that [`rewritten_head`] gives: the last of the
    /// new commits. Where `limit` is given, only
    /// that many commits get their new text, and the others keep the message
    /// they have.
    ///
    /// Where the repository belongs to the companion tool nothing is done,
    /// since that tool has to write the messages.
    pub fn lock_and_rewrite_commit_messages(
        &self,
        commits: &mut Vec<PreparedCommit>,
        messages: &Vec<String>,
        limit: Option<usize>,
    ) -> (r: Result<Rewrite>)
        ensures
            final(commits)@.len() == old(commits)@.len(),
            old(commits)@.len() == 0 ==> r == Ok::<Rewrite, SprError>(Rewrite::Native) && final(commits)@ == old(commits)@,
            old(commits)@.len() > 0 && self.jj is Some ==> r == Ok::<Rewrite, SprError>(
                Rewrite::Companion,
            ) && final(commits)@ == old(commits)@,
            old(commits)@.len() > 0 && self.jj is None && messages@.len() != old(commits)@.len()
                ==> r is Err && final(commits)@ == old(commits)@,
            r is Ok && old(commits)@.len() > 0 && self.jj is None ==> r == Ok::<Rewrite, SprError>(
                Rewrite::Native,
            ) && exists|first: int| #[trigger]
                rewritten_from(self.repo.repo, old(commits)@, final(commits)@, first)
                    && is_first_to_rewrite(
                    self.repo.repo,
                    old(commits)@,
                    messages.deep_view(),
                    limit,
                    first,
                ) && forall|i: int|
                    first <= i < final(commits)@.len() ==> #[trigger] has_new_text(
                        self.repo.repo,
                        old(commits)@,
                        final(commits)@,
                        messages.deep_view(),
                        limit,
                        i,
                    ),
            r matches Err(e) ==> e@.kind == ErrorKind::Backend,
    {
        if commits.len() == 0 {
            return Ok(Rewrite::Native);
        }
        if self.jj.is_some() {
            return Ok(Rewrite::Companion);
        }
        if messages.len() != commits.len() {
            return Err(
                SprError::new(
                    ErrorKind::Backend,
                    String::from_str("There is not one message for each commit"),
                ),
            );
        }
        let first_parent = commits[0].parent_oid;
        let mut parent_oid: Option<Oid> = None;
        let mut updating = false;
        let mut left = limit;
        let ghost texts = messages.deep_view();
        let ghost bound = spec_rewrite_bound(limit, commits@.len() as int);
        let ghost mut first: int = 0;
        let mut i: usize = 0;
        while i < commits.len()
            invariant
                i <= commits.len(),
                messages@.len() == commits@.len(),
                commits@.len() == old(commits)@.len(),
                texts == messages.deep_view(),
                bound == spec_rewrite_bound(limit, commits@.len() as int),
                first_parent == old(commits)@[0].parent_oid,
                !updating ==> first == i,
                updating ==> first < i && first < bound && text_differs(
                    self.repo.repo,
                    old(commits)@,
                    texts,
                    first,
                ),
                forall|j: int|
                    0 <= j < first && j < bound ==> !#[trigger] text_differs(
                        self.repo.repo,
                        old(commits)@,
                        texts,
                        j,
                    ),
                self.jj is None,
                i > 0 ==> parent_oid == Some(commits@[i - 1].oid),
                i == 0 ==> parent_oid is None,
                rewritten_between(self.repo.repo, old(commits)@, commits@, first, i as int),
                limit is None <==> left is None,
                limit matches Some(n) ==> left == Some(
                    if n >= i {
                        (n - i) as usize
                    } else {
                        0usize
                    },
                ),
                forall|j: int|
                    first <= j < i ==> #[trigger] has_new_text(
                        self.repo.repo,
                        old(commits)@,
                        commits@,
                        texts,
                        limit,
                        j,
                    ),
            decreases commits.len() - i,
        {
            let oid = commits[i].oid;
            assert(oid == old(commits)@[i as int].oid);
            assert(texts[i as int] == messages@[i as int]@);
            let message = match left {
                Some(0) => {
                    if !updating {
                        proof {
                            let n = commits@.len() as int;
                            assert forall|j: int| 0 <= j < n implies (#[trigger] commits@[j]).oid
                                == old(commits)@[j].oid by {}
                            assert(rewritten_from(self.repo.repo, old(commits)@, commits@, n));
                            assert(is_first_to_rewrite(
                                self.repo.repo,
                                old(commits)@,
                                texts,
                                limit,
                                n,
                            ));
                        }
                        return Ok(Rewrite::Native);
                    }
                    from_store(crate::repo::commit_message_lossy(&self.repo.repo, oid))?
                },
                _ => {
                    let current = from_store(crate::repo::commit_message(&self.repo.repo, oid))?;
                    let new = is_new_text(&current, messages[i].as_str());
                    proof {
                        assert(i < bound);
                        assert(new == text_differs(
                            self.repo.repo,
                            old(commits)@,
                            texts,
                            i as int,
                        ));
                    }
                    if new {
                        updating = true;
                    }
                    messages[i].clone()
                },
            };
            left =
            match left {
                Some(n) => Some(
                    if n > 0 {
                        n - 1
                    } else {
                        0
                    },
                ),
                None => None,
            };
            if updating {
                let parent = match parent_oid {
                    Some(parent) => parent,
                    None => first_parent,
                };
                let new_oid = self.remake(oid, message.as_str(), parent)?;
                let ghost before = commits@;
                commits[i].oid = new_oid;
                parent_oid = Some(new_oid);
                proof {
                    lemma_one_more_rewritten(
                        self.repo.repo,
                        old(commits)@,
                        before,
                        commits@,
                        first,
                        i as int,
                    );
                    assert forall|j: int| first <= j < i + 1 implies #[trigger] has_new_text(
                        self.repo.repo,
                        old(commits)@,
                        commits@,
                        texts,
                        limit,
                        j,
                    ) by {
                        if j < i {
                            assert(has_new_text(
                                self.repo.repo,
                                old(commits)@,
                                before,
                                texts,
                                limit,
                                j,
                            ));
                        }
                    }
                }
            } else {
                parent_oid = Some(oid);
                proof {
                    first = first + 1;
                }
            }
            i = i + 1;
        }
        assert(rewritten_from(self.repo.repo, old(commits)@, commits@, first));
        assert(is_first_to_rewrite(self.repo.repo, old(commits)@, texts, limit, first));
        match rewritten_head(updating, commits) {
            Some(oid) => {
                from_store(
                    crate::repo::set_resolved_target(
                        &self.repo.repo,
                        "HEAD",
                        oid,
                        "spr updated commit messages",
                    ),
                )?;
            },
            None => {},
        }
        Ok(Rewrite::Native)
    }

    /// Makes the commit `oid` anew with the message `message` and the one
    /// parent `parent`.
    fn remake(&self, oid: Oid, message: &str, parent: Oid) -> (r: Result<Oid>)
        ensures
            r matches Ok(commit) ==> {
                &&& stored_commits(self.repo.repo).contains_key(oid@)
                &&& stored_commits(self.repo.repo).contains_key(commit@)
                &&& stored_commits(self.repo.repo)[commit@].0 == stored_commits(
                    self.repo.repo,
                )[oid@].0
                &&& stored_commits(self.repo.repo)[commit@].1 == seq![parent@]
                &&& stored_commits(self.repo.repo)[commit@].2 == message@
                &&& same_people(self.repo.repo, oid@, commit@)
            },
            r matches Err(e) ==> e@.kind == ErrorKind::Backend,
    {
        let tree = match crate::repo::commit_tree_id(&self.repo.repo, oid) {
            Ok(tree) => tree,
            Err(e) => {
                return Err(backend_error(e));
            },
        };
        self.repo.commit_like(oid, message, tree, parent)
    }

    /// Makes what the replay of the commit `oid` on the commit `onto` leaves,
    /// where the replay gave the tree `tree` and `onto` has the tree
    /// `onto_tree`: `onto` itself where the two trees are the same, and
    /// otherwise a commit like `oid` with the tree of the replay on top of
    /// `onto`.
    fn replayed_commit(&self, oid: Oid, onto: Oid, tree: Oid, onto_tree: Oid) -> (r: Result<
        Oid,
    >)
        requires
            crate::repo::has_tree(self.repo.repo, onto@, onto_tree@),
        ensures
            r matches Ok(commit) ==> is_replay(self.repo.repo, oid@, onto@, commit@, tree@),
            tree@ == onto_tree@ ==> r == Ok::<Oid, SprError>(onto),
            r matches Err(e) ==> e@.kind == ErrorKind::Backend,
    {
        if tree == onto_tree {
            crate::repo::run_post_rewrite_rebase(&self.repo.repo, &self.repo.hooks, oid, onto);
            Ok(onto)
        } else {
            let message = from_store(crate::repo::commit_message_lossy(&self.repo.repo, oid))?;
            self.repo.commit_like(oid, message.as_str(), tree, onto)
        }
    }

    /// Replays the local commits, oldest first, on `new_parent_oid`, sets the
    /// working copy and the branch that the head is on to the last of the new
    /// commits, and gives that commit: the commit that is returned is the one
    /// that the working copy and the branch are set to. The hooks of the
    /// repository are told of each commit what it was rewritten into: the new
    /// commit, or its new parent where the replay changed nothing.
    ///
    /// A commit whose replay changes nothing is left out. A replay with
    /// conflicts ends the rebase with a failure, and so does a working copy
    /// that cannot be set to the new commits; neither the branch nor the head
    /// has been moved then. Without commits nothing is done.
    pub fn lock_and_rebase_commits(&self, commits: &Vec<PreparedCommit>, new_parent_oid: Oid) -> (r:
        Result<Oid>)
        ensures
            commits@.len() == 0 ==> r == Ok::<Oid, SprError>(new_parent_oid),
            r matches Ok(tip) ==> exists|line: Seq<Seq<u8>>, trees: Seq<Seq<u8>>| #[trigger]
                is_rebased_line(self.repo.repo, commits@, line, trees) && line[0]
                    == new_parent_oid@ && line.last() == tip@,
            r matches Err(e) ==> (e@.kind == ErrorKind::Backend || (e@.kind == ErrorKind::Conflict
                && e@.messages == seq![rebase_conflict_message()])),
    {
        let ghost start = new_parent_oid;
        let ghost mut line: Seq<Seq<u8>> = seq![new_parent_oid@];
        let ghost mut trees: Seq<Seq<u8>> = Seq::empty();
        if commits.len() == 0 {
            assert(is_rebased_line(self.repo.repo, commits@, line, trees));
            return Ok(new_parent_oid);
        }
        let mut new_parent_oid = new_parent_oid;
        let mut i: usize = 0;
        while i < commits.len()
            invariant
                i <= commits.len(),
                line.len() == i + 1,
                trees.len() == i,
                forall|k: int|
                    0 <= k < i ==> is_replay(
                        self.repo.repo,
                        (#[trigger] commits@[k]).oid@,
                        line[k],
                        line[k + 1],
                        trees[k],
                    ),
                line[0] == start@,
                line.last() == new_parent_oid@,
            decreases commits.len() - i,
        {
            let oid = commits[i].oid;
            let index = self.lock_and_cherrypick(oid, new_parent_oid)?;
            check_rebase_replay(crate::repo::index_has_conflicts(&index))?;
            let tree_oid = self.lock_and_write_index(index)?;
            let parent_tree = self.lock_and_get_tree_oid_for_commit(new_parent_oid)?;
            let ghost before = line;
            let ghost trees_before = trees;
            new_parent_oid = self.replayed_commit(oid, new_parent_oid, tree_oid, parent_tree)?;
            proof {
                line = before.push(new_parent_oid@);
                trees = trees_before.push(tree_oid@);
                assert forall|k: int| 0 <= k < i + 1 implies is_replay(
                    self.repo.repo,
                    (#[trigger] commits@[k]).oid@,
                    line[k],
                    line[k + 1],
                    trees[k],
                ) by {
                    if k < i {
                        assert(line[k] == before[k] && line[k + 1] == before[k + 1]);
                        assert(trees[k] == trees_before[k]);
                    }
                }
            }
            i = i + 1;
        }
        assert(is_rebased_line(self.repo.repo, commits@, line, trees));
        let reference = match crate::repo::resolved_head_name(&self.repo.repo) {
            Ok(Some(name)) => name,
            Ok(None) => {
                return Err(
                    SprError::new(
                        ErrorKind::Backend,
                        String::from_str("The name of a reference is not valid UTF-8"),
                    ),
                );
            },
            Err(e) => {
                return Err(backend_error(e));
            },
        };
        check_checkout(crate::repo::checkout_commit(&self.repo.repo, new_parent_oid))?;
        match crate::repo::set_resolved_target(
            &self.repo.repo,
            reference.as_str(),
            new_parent_oid,
            "spr rebased",
        ) {
            Ok(()) => Ok(new_parent_oid),
            Err(e) => Err(backend_error(e)),
        }
    }

    /// The commit that the head points at.
    pub fn lock_and_get_head(&self) -> (r: Result<Oid>)
        ensures
            r matches Err(e) ==> e@.kind == ErrorKind::Backend,
    {
        head_commit(from_store(crate::repo::head_target(&self.repo.repo))?)
    }

    /// The commit that the reference `reference` leads to.
    pub fn lock_and_resolve_reference(&self, reference: &str) -> (r: Result<Oid>)
        ensures
            r matches Err(e) ==> e@.kind == ErrorKind::Backend,
    {
        from_store(crate::repo::reference_commit(&self.repo.repo, reference))
    }

    /// The fetch that brings the commits among `commit_oids` that the store
    /// does not hold from `remote`: its arguments, or `None` where the store
    /// holds them all.
    ///
    /// Whether the store holds a commit is for the store to say. Whatever it
    /// says, the fetch names the commits that it said it does not hold, each
    /// by its identity in hexadecimal and in the order of `commit_oids`.
    pub fn lock_and_fetch_commits_from_remote(&self, commit_oids: &Vec<Oid>, remote: &str) -> (r:
        Option<Vec<String>>)
        ensures
            exists|held: Seq<bool>|
                held.len() == commit_oids@.len() && (match r {
                    Some(args) => Some(args.deep_view()),
                    None => None,
                }) == spec_fetch_args(
                    remote@,
                    #[trigger] spec_missing_commits(oid_views(commit_oids@), held),
                ),
            commit_oids@.len() == 0 ==> r is None,
    {
        let mut held: Vec<bool> = Vec::new();
        let mut i: usize = 0;
        while i < commit_oids.len()
            invariant
                i <= commit_oids.len(),
                held@.len() == i,
            decreases commit_oids.len() - i,
        {
            held.push(crate::repo::commit_is_present(&self.repo.repo, commit_oids[i]));
            i = i + 1;
        }
        let missing = missing_commits(commit_oids, &held);
        fetch_args(remote, &missing)
    }

    /// The fetch that brings the branches `refs` from `remote`: its arguments,
    /// or `None` where no branch is named.
    pub fn fetch_from_remote(refs: &Vec<GitHubBranch>, remote: &str) -> (r: Option<Vec<String>>)
        ensures
            (match r {
                Some(args) => Some(args.deep_view()),
                None => None,
            }) == spec_fetch_args(remote@, spec_names_on_github(refs@)),
            r is Some <==> refs@.len() > 0,
    {
        let mut names: Vec<String> = Vec::new();
        let mut i: usize = 0;
        while i < refs.len()
            invariant
                i <= refs.len(),
                names@.len() == i,
                forall|k: int| 0 <= k < i ==> (#[trigger] names@[k])@ == refs@[k].ref_on_github@,
            decreases refs.len() - i,
        {
            names.push(String::from_str(refs[i].on_github()));
            i = i + 1;
        }
        assert(names.deep_view() =~= spec_names_on_github(refs@));
        fetch_args(remote, &names)
    }

    /// Reads the commit `oid` from the store. The commit must have exactly one
    /// parent.
    ///
    /// The record has the text that the store shows for the message of the
    /// commit, and for the short form of its identity the hexadecimal form up
    /// to the length that the store chose.
    pub fn lock_and_prepare_commit(&self, oid: Oid) -> (r: Result<UnparsedCommit>)
        ensures
            r matches Ok(commit) ==> commit.oid == oid && crate::history::is_only_parent(
                self.repo.repo,
                oid@,
                commit.parent_oid@,
            ) && crate::repo::shows_text(self.repo.repo, oid@, commit.message@)
                && commit.short_id@.len() <= 40 && commit.short_id@ == crate::oid::hex_text(
                oid@,
            ).take(commit.short_id@.len() as int),
            r matches Err(e) ==> e@.kind == ErrorKind::Backend || e@.kind == ErrorKind::Validation,
    {
        let parents = match crate::repo::commit_parent_ids(&self.repo.repo, oid) {
            Ok(parents) => parents,
            Err(e) => {
                return Err(backend_error(e));
            },
        };
        let parent_oid = single_parent(&parents)?;
        assert(oid_views(parents@) =~= seq![parent_oid@]);
        let message = match crate::repo::commit_message_lossy(&self.repo.repo, oid) {
            Ok(text) => text,
            Err(e) => {
                return Err(backend_error(e));
            },
        };
        let short_id = match crate::repo::commit_short_id(&self.repo.repo, oid) {
            Ok(text) => text,
            Err(e) => {
                return Err(backend_error(e));
            },
        };
        Ok(UnparsedCommit { oid, short_id, parent_oid, message })
    }

    /// The names of all references of the store.
    pub fn lock_and_get_all_ref_names(&self) -> (r: Result<Vec<String>>)
        ensures
            r matches Err(e) ==> e@.kind == ErrorKind::Backend,
    {
        all_names(from_store(crate::repo::reference_names(&self.repo.repo))?)
    }

    /// A name for the local branch of the patch of the pull request
    /// `pr_number` that no local branch has yet.
    pub fn lock_and_get_pr_patch_branch_name(&self, pr_number: u64) -> (r: Result<String>)
        ensures
            r matches Ok(name) ==> exists|k: u64|
                name@ == #[trigger] spec_patch_branch_name(pr_number, k),
            r matches Err(e) ==> e@.kind == ErrorKind::Backend,
    {
        let ref_names = self.lock_and_get_all_ref_names()?;
        let name = patch_branch_name(&ref_names, pr_number)?;
        Ok(name)
    }

    /// Replays the change of `oid` on `base_oid` and gives the index that
    /// results, which may hold conflicts.
    pub fn lock_and_cherrypick(&self, oid: Oid, base_oid: Oid) -> (r: Result<git2::Index>)
        ensures
            r matches Err(e) ==> e@.kind == ErrorKind::Backend,
    {
        from_store(crate::repo::cherrypick_commit(&self.repo.repo, oid, base_oid))
    }

    /// Writes an index to the store as a tree.
    pub fn lock_and_write_index(&self, index: git2::Index) -> (r: Result<Oid>)
        ensures
            r matches Err(e) ==> e@.kind == ErrorKind::Backend,
    {
        from_store(crate::repo::write_index(&self.repo.repo, index))
    }

    /// The tree of the commit `oid`.
    pub fn lock_and_get_tree_oid_for_commit(&self, oid: Oid) -> (r: Result<Oid>)
        ensures
            r matches Ok(tree) ==> crate::repo::has_tree(self.repo.repo, oid@, tree@),
            r matches Err(e) ==> e@.kind == ErrorKind::Backend,
    {
        match crate::repo::commit_tree_id(&self.repo.repo, oid) {
            Ok(tree) => Ok(tree),
            Err(e) => Err(backend_error(e)),
        }
    }

    /// Searches for the trunk commit that `commit_oid` is based on: the first
    /// commit that the walks from `commit_oid` and from `master_oid`, over all
    /// parents, both reach. The answer `Some` names a common ancestor of the
    /// two, and for one and the same commit that commit; where the histories
    /// of both are lines, it names the nearest of their common ancestors. The
    /// answer `None` says that the two have no common ancestor.
    pub fn lock_and_find_master_base(&self, commit_oid: Oid, master_oid: Oid) -> (r: Result<
        Option<Oid>,
    >)
        ensures
            r matches Ok(Some(base)) ==> is_master_base(
                self.repo.repo,
                commit_oid@,
                master_oid@,
                base@,
            ),
            r matches Ok(None) ==> forall|x: Seq<u8>|
                !#[trigger] is_master_base(self.repo.repo, commit_oid@, master_oid@, x),
            r matches Err(e) ==> e@.kind == ErrorKind::Backend,
            commit_oid@ == master_oid@ ==> r == Ok::<Option<Oid>, SprError>(Some(commit_oid)),
            r matches Ok(Some(base)) ==> (crate::history::is_linear_from(
                self.repo.repo,
                commit_oid@,
            ) && crate::history::is_linear_from(self.repo.repo, master_oid@)
                ==> crate::history::is_nearest_base(
                self.repo.repo,
                commit_oid@,
                master_oid@,
                base@,
            )),
    {
        crate::history::find_master_base(&self.repo.repo, commit_oid, master_oid)
    }

    /// Makes a commit with the tree `tree_oid` and the parents `parent_oids`
    /// that stands for the commit `original_commit_oid`.
    ///
    /// The author is the author of the original commit, with the time of
    /// now. The committer is the operator as the settings name them, with the
    /// time of now, and where the settings name nobody, the committer of the
    /// original commit; [`crate::person::authorship`] says so of the people
    /// that the store names. The commit is signed where commits are signed,
    /// and not otherwise. Its message is what the store makes of `message`
    /// when it takes needless white space out; [`derive_commit`] makes the
    /// commit from that text.
    pub fn lock_and_create_derived_commit(
        &self,
        original_commit_oid: Oid,
        message: &str,
        tree_oid: Oid,
        parent_oids: &Vec<Oid>,
    ) -> (r: Result<Oid>)
        ensures
            r matches Ok(commit) ==> crate::repo::has_tree(self.repo.repo, commit@, tree_oid@)
                && crate::repo::has_parents(self.repo.repo, commit@, oid_views(parent_oids@))
                && is_derived_from(self.repo.repo, original_commit_oid@, commit@)
                && (crate::repo::is_signed(self.repo.repo, commit@) <==> self.repo.sign
                is Enabled) && exists|text: Seq<char>| #[trigger]
                crate::repo::has_message(self.repo.repo, commit@, text),
            r matches Err(e) ==> e@.kind == ErrorKind::Backend,
    {
        let text = from_store(crate::repo::prettify_message(message))?;
        derive_commit(
            &self.repo.repo,
            &self.repo.sign,
            original_commit_oid,
            text.as_str(),
            tree_oid,
            parent_oids,
        )
    }

    /// Makes sure that the working copy is without changes, untracked and
    /// ignored files not counted.
    pub fn lock_and_check_no_uncommitted_changes(&self) -> (r: Result<()>)
        ensures
            r matches Err(e) ==> e@.kind == ErrorKind::Backend || (e@.kind
                == ErrorKind::Validation && e@.messages == seq![uncommitted_message()]),
    {
        check_clean(from_store(crate::repo::worktree_is_clean(&self.repo.repo))?)
    }
}

/// Makes a commit with the tree `tree`, the parents `parents` and the message
/// `text`, by `author` and `committer`, both at the time of now. The commit
/// is signed where `sign` says how, and not otherwise.
///
/// A person whose name or address holds a line end cannot be written into a
/// commit, and is refused before the store is asked.
pub fn commit_by(
    repo: &git2::Repository,
    sign: &CommitSign,
    author: &Person,
    committer: &Person,
    text: &str,
    tree: Oid,
    parents: &Vec<Oid>,
) -> (r: Result<Oid>)
    ensures
        r matches Ok(commit) ==> made_by(
            *repo,
            commit@,
            tree@,
            oid_views(parents@),
            text@,
            author@,
            committer@,
        ) && (crate::repo::is_signed(*repo, commit@) <==> sign is Enabled),
        !is_one_line(author@) || !is_one_line(committer@) ==> (r matches Err(e) && e@.messages
            == seq![line_end_message()]),
        r matches Err(e) ==> e@.kind == ErrorKind::Backend,
{
    if !author.is_one_line() || !committer.is_one_line() {
        return Err(
            SprError::new(
                ErrorKind::Backend,
                String::from_str("The name or the address of a person holds a line end"),
            ),
        );
    }
    from_store(
        crate::repo::create_stamped_commit(
            repo,
            sign.as_sign(),
            author,
            committer,
            text,
            tree,
            parents,
        ),
    )
}

/// The operator, where the settings of the repository name one.
pub fn named_operator(found: std::result::Result<Person, git2::Error>) -> (r: Option<Person>)
    ensures
        r == (match found {
            Ok(person) => Some(person),
            Err(_) => None,
        }),
{
    match found {
        Ok(person) => Some(person),
        Err(_) => None,
    }
}

/// Makes the commit that stands for a local commit whose author is
/// `original_author` and whose committer is `original_committer`, with the
/// tree `tree`, the parents `parents` and the message `text`.
///
/// The author is the author of the local commit. The committer is
/// `operator`, and the committer of the local commit where there is no
/// operator. Both get the time of now. The commit is signed where `sign`
/// says how, and not otherwise.
pub fn commit_for(
    repo: &git2::Repository,
    sign: &CommitSign,
    original_author: Person,
    original_committer: Person,
    operator: Option<Person>,
    text: &str,
    tree: Oid,
    parents: &Vec<Oid>,
) -> (r: Result<Oid>)
    ensures
        r matches Ok(commit) ==> made_by(
            *repo,
            commit@,
            tree@,
            oid_views(parents@),
            text@,
            original_author@,
            spec_committer(
                original_committer@,
                match operator {
                    Some(person) => Some(person@),
                    None => None,
                },
            ),
        ) && (crate::repo::is_signed(*repo, commit@) <==> sign is Enabled),
        r matches Err(e) ==> e@.kind == ErrorKind::Backend,
{
    let (author, committer) = authorship(original_author, original_committer, operator);
    commit_by(repo, sign, &author, &committer, text, tree, parents)
}

/// Whether the commit `commit` stands for the commit `original` by its
/// people: its author is the author that the repository shows for
/// `original`, and its committer is an operator or, where there is none, the
/// committer that the repository shows for `original`; each as a commit
/// records a person.
pub open spec fn is_derived_from(
    repo: git2::Repository,
    original: Seq<u8>,
    commit: Seq<u8>,
) -> bool {
    &&& crate::repo::stored_people(repo).contains_key(original)
    &&& crate::repo::has_author(
        repo,
        commit,
        crate::person::recorded(crate::repo::stored_people(repo)[original].0),
    )
    &&& exists|operator: Option<(Seq<char>, Seq<char>)>|
        crate::repo::has_committer(
            repo,
            commit,
            crate::person::recorded(
                #[trigger] spec_committer(crate::repo::stored_people(repo)[original].1, operator),
            ),
        )
}

/// Makes a commit with the tree `tree` and the parents `parents` that stands
/// for the commit `original`, with the message `text`.
///
/// The author is the author of the original commit. The committer is the
/// operator as the settings name them, and the committer of the original
/// commit where they name nobody; [`commit_for`] says so of the people that
/// the store names. Both get the time of now. The commit is signed where
/// `sign` says how, and not otherwise.
pub fn derive_commit(
    repo: &git2::Repository,
    sign: &CommitSign,
    original: Oid,
    text: &str,
    tree: Oid,
    parents: &Vec<Oid>,
) -> (r: Result<Oid>)
    ensures
        r matches Ok(commit) ==> crate::repo::has_tree(*repo, commit@, tree@)
            && crate::repo::has_parents(*repo, commit@, oid_views(parents@))
            && crate::repo::has_message(*repo, commit@, text@) && is_derived_from(
            *repo,
            original@,
            commit@,
        ) && (crate::repo::is_signed(*repo, commit@) <==> sign is Enabled),
        r matches Err(e) ==> e@.kind == ErrorKind::Backend,
{
    let original_author = from_store(crate::repo::commit_author(repo, original))?;
    let original_committer = from_store(crate::repo::commit_committer(repo, original))?;
    let operator = named_operator(crate::repo::operator(repo));
    commit_for(repo, sign, original_author, original_committer, operator, text, tree, parents)
}

/// The commit that the head points at, where it points at one.
pub fn head_commit(target: Option<Oid>) -> (r: Result<Oid>)
    ensures
        r is Ok <==> target is Some,
        r matches Ok(oid) ==> Some(oid) == target,
        r matches Err(e) ==> e@.kind == ErrorKind::Backend && e@.messages == seq![
            no_head_message(),
        ],
{
    match target {
        Some(oid) => Ok(oid),
        None => Err(SprError::new(ErrorKind::Backend, String::from_str("Cannot resolve HEAD"))),
    }
}

/// A working copy with changes is refused.
pub fn check_clean(clean: bool) -> (r: Result<()>)
    ensures
        r is Ok <==> clean,
        r matches Err(e) ==> e@.kind == ErrorKind::Validation && e@.messages == seq![
            uncommitted_message(),
        ],
{
    if clean {
        Ok(())
    } else {
        Err(
            SprError::new(
                ErrorKind::Validation,
                String::from_str("There are uncommitted changes. Stash or amend them first"),
            ),
        )
    }
}

} // verus!
