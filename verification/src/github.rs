//! What the engine knows of the hosting service: branches, the snapshot of a
//! pull request, and the changes it asks the service to make.

use crate::oid::Oid;
use crate::text::concat;
use crate::text::str_eq;
use vstd::prelude::*;

verus! {

/// A branch on the hosting service, with its name there and the name of the
/// local reference that tracks it.
#[derive(Debug)]
pub struct GitHubBranch {
    pub name: String,
    pub ref_on_github: String,
    pub ref_local: String,
    pub is_master_branch: bool,
}

/// The full name that a branch has on the hosting service.
pub open spec fn spec_ref_on_github(branch_name: Seq<char>) -> Seq<char> {
    "refs/heads/"@ + branch_name
}

/// The full name of the local reference that tracks a branch of a remote.
pub open spec fn spec_ref_local(remote_name: Seq<char>, branch_name: Seq<char>) -> Seq<char> {
    "refs/remotes/"@ + remote_name + "/"@ + branch_name
}

impl GitHubBranch {
    /// The references of a branch are derived from its name.
    pub open spec fn wf(&self) -> bool {
        self.ref_on_github@ == spec_ref_on_github(self.name@)
    }

    /// The branch called `branch_name` of the remote `remote_name`; it is the
    /// trunk exactly when it is called `master_branch_name`.
    pub fn new_from_branch_name(
        branch_name: &str,
        remote_name: &str,
        master_branch_name: &str,
    ) -> (r: GitHubBranch)
        ensures
            r.wf(),
            r.name@ == branch_name@,
            r.ref_on_github@ == spec_ref_on_github(branch_name@),
            r.ref_local@ == spec_ref_local(remote_name@, branch_name@),
            r.is_master_branch == (branch_name@ == master_branch_name@),
    {
        let ref_on_github = concat("refs/heads/", branch_name);
        let mut ref_local = concat("refs/remotes/", remote_name);
        ref_local.append("/");
        ref_local.append(branch_name);
        GitHubBranch {
            name: String::from_str(branch_name),
            ref_on_github,
            ref_local,
            is_master_branch: str_eq(branch_name, master_branch_name),
        }
    }

    /// The full name of the branch on the hosting service.
    pub fn on_github(&self) -> (r: &str)
        ensures
            r@ == self.ref_on_github@,
    {
        self.ref_on_github.as_str()
    }

    /// The full name of the local reference that tracks the branch.
    pub fn local(&self) -> (r: &str)
        ensures
            r@ == self.ref_local@,
    {
        self.ref_local.as_str()
    }

    /// Whether the branch is the trunk.
    pub fn is_master_branch(&self) -> (r: bool)
        ensures
            r == self.is_master_branch,
    {
        self.is_master_branch
    }

    /// The short name of the branch.
    pub fn branch_name(&self) -> (r: &str)
        ensures
            r@ == self.name@,
    {
        self.name.as_str()
    }

    /// A copy of the branch.
    pub fn duplicate(&self) -> (r: GitHubBranch)
        ensures
            r.name@ == self.name@,
            r.ref_on_github@ == self.ref_on_github@,
            r.ref_local@ == self.ref_local@,
            r.is_master_branch == self.is_master_branch,
            self.wf() ==> r.wf(),
    {
        GitHubBranch {
            name: self.name.clone(),
            ref_on_github: self.ref_on_github.clone(),
            ref_local: self.ref_local.clone(),
            is_master_branch: self.is_master_branch,
        }
    }
}

/// Whether a pull request can still be updated.
#[derive(Debug, Clone, Copy, PartialEq, Eq, Structural)]
pub enum PullRequestState {
    Open,
    Closed,
}

/// The snapshot of a pull request, fetched once per pass and only read.
#[derive(Debug)]
pub struct PullRequest {
    pub number: u64,
    pub state: PullRequestState,
    /// The title that the service shows.
    pub title: Option<String>,
    /// The description that the service shows.
    pub body: Option<String>,
    /// The branch that holds the changes under review, and its tip.
    pub head: GitHubBranch,
    pub head_oid: Oid,
    /// The branch that the changes are compared with, and its tip.
    pub base: GitHubBranch,
    pub base_oid: Oid,
}

/// The fields of a pull request that a partial update sets. A field that is
/// `None` is left as the service has it.
#[derive(Debug)]
pub struct PullRequestUpdate {
    pub title: Option<String>,
    pub body: Option<String>,
    pub base: Option<String>,
}

/// An optional text, as an optional sequence of characters.
pub open spec fn opt_view(text: Option<String>) -> Option<Seq<char>> {
    match text {
        Some(s) => Some(s@),
        None => None,
    }
}

/// The title that an update to the local message sets: the local title where
/// there is one and the service shows another, or none.
pub open spec fn spec_title_update(
    shown: Option<Seq<char>>,
    local: Option<Seq<char>>,
) -> Option<Seq<char>> {
    if local is Some && local != shown {
        local
    } else {
        None
    }
}

/// The description that an update to the local message sets: the local
/// description where the service shows none or another.
pub open spec fn spec_body_update(shown: Option<Seq<char>>, local: Seq<char>) -> Option<
    Seq<char>,
> {
    if shown != Some(local) {
        Some(local)
    } else {
        None
    }
}

impl PullRequestUpdate {
    /// An update that changes nothing.
    pub fn new() -> (r: PullRequestUpdate)
        ensures
            r.title is None,
            r.body is None,
            r.base is None,
    {
        PullRequestUpdate { title: None, body: None, base: None }
    }

    /// Whether the update changes nothing.
    pub fn is_empty(&self) -> (r: bool)
        ensures
            r == (self.title is None && self.body is None && self.base is None),
    {
        self.title.is_none() && self.body.is_none() && self.base.is_none()
    }

    /// Makes the update carry the local title and description as far as they
    /// differ from what the service shows.
    ///
    /// `title` is the title section of the local message and `body` the
    /// description written from its sections.
    pub fn update_message(
        &mut self,
        pull_request: &PullRequest,
        title: Option<&String>,
        body: &String,
    )
        ensures
            final(self).base == old(self).base,
            opt_view(final(self).title) == (match spec_title_update(
                opt_view(pull_request.title),
                match title {
                    Some(t) => Some(t@),
                    None => None,
                },
            ) {
                Some(t) => Some(t),
                None => opt_view(old(self).title),
            }),
            opt_view(final(self).body) == (match spec_body_update(
                opt_view(pull_request.body),
                body@,
            ) {
                Some(b) => Some(b),
                None => opt_view(old(self).body),
            }),
    {
        match title {
            Some(t) => {
                let differs = match &pull_request.title {
                    Some(shown) => !str_eq(shown.as_str(), t.as_str()),
                    None => true,
                };
                if differs {
                    self.title = Some(t.clone());
                }
            },
            None => {},
        }
        let same = match &pull_request.body {
            Some(shown) => str_eq(shown.as_str(), body.as_str()),
            None => false,
        };
        if !same {
            self.body = Some(body.clone());
        }
    }
}

/// The accounts and teams whose review is requested for a new pull request.
#[derive(Debug)]
pub struct PullRequestRequestReviewers {
    pub reviewers: Vec<String>,
    pub team_reviewers: Vec<String>,
}

impl PullRequestRequestReviewers {
    /// A request that names nobody.
    pub fn new() -> (r: PullRequestRequestReviewers)
        ensures
            r.reviewers@.len() == 0,
            r.team_reviewers@.len() == 0,
    {
        PullRequestRequestReviewers { reviewers: Vec::new(), team_reviewers: Vec::new() }
    }
}

/// What the service shows once an update is done: the field of the update
/// where it has one, and what was shown before where it has none.
pub open spec fn spec_shown_after(shown: Option<Seq<char>>, update: Option<Seq<char>>) -> Option<
    Seq<char>,
> {
    match update {
        Some(text) => Some(text),
        None => shown,
    }
}

/// An update of the message leaves nothing to update: once the service shows
/// what the update set, the same local title and description ask for no
/// change.
pub proof fn lemma_message_update_settles(
    shown_title: Option<Seq<char>>,
    shown_body: Option<Seq<char>>,
    title: Option<Seq<char>>,
    body: Seq<char>,
)
    ensures
        spec_title_update(
            spec_shown_after(shown_title, spec_title_update(shown_title, title)),
            title,
        ) is None,
        spec_body_update(spec_shown_after(shown_body, spec_body_update(shown_body, body)), body)
            is None,
{
}

} // verus!
