//! The `diff` command: one pass of the engine over a stack of commits.

use crate::backend::Backend;
use crate::commit::PreparedCommit;
use crate::config::Config;
use crate::config::spec_candidate_name;
use crate::config::spec_pull_request_url;
use crate::error::ErrorKind;
use crate::error::Result;
use crate::error::SprError;
use crate::github::GitHubBranch;
use crate::github::opt_view;
use crate::github::PullRequest;
use crate::github::PullRequestRequestReviewers;
use crate::github::PullRequestState;
use crate::github::PullRequestUpdate;
use crate::github::spec_body_update;
use crate::github::spec_title_update;
use crate::message::MessageSection;
use crate::oid::hex_text;
use crate::oid::Oid;
use crate::sync::decide;
use crate::sync::LadderCase;
use crate::sync::no_update_necessary;
use crate::sync::pr_commit_parents;
use crate::sync::PullRequestStatus;
use crate::sync::spec_base_parents;
use crate::sync::spec_decide;
use crate::sync::spec_no_update_necessary;
use crate::sync::spec_pr_commit_parents;
use crate::sync::SynchronizationDecision;
use crate::sync::SyncInput;
use crate::sync::Targets;
use crate::text::concat;
use crate::text::find_char;
use crate::text::find_from;
use crate::text::join;
use crate::text::lemma_find_in_rest;
use crate::text::spec_join;
use crate::text::spec_split;
use crate::text::split;
use crate::text::str_eq;
use crate::text::string_from_chars;
use crate::text::to_chars;
use crate::text::trim;
use crate::text::trimmed;
use vstd::prelude::*;

verus! {

/// What the operator asked of one synchronization pass.
#[derive(Debug, Clone)]
pub struct DiffOptions {
    /// Create or update pull requests for every commit between the base and
    /// the target revision.
    pub all: bool,
    /// Overwrite the title and description of an existing pull request with
    /// the local commit message.
    pub update_message: bool,
    /// Open new pull requests as drafts.
    pub draft: bool,
    /// Message for the commit that updates an existing pull request.
    pub message: Option<String>,
    /// Submit the commit as if it were replayed on the trunk base, leaving out
    /// the changes between the trunk and this commit.
    pub cherry_pick: bool,
    /// Base revision of the range; the trunk when absent.
    pub base: Option<String>,
    /// Revision, or range of revisions, to operate on.
    pub revision: Option<String>,
}

/// A name from the list of those asked for a review: a team, written with a
/// leading `#`, or an account.
#[derive(Debug)]
pub enum ReviewerName {
    /// A team, with its name as the service knows it.
    Team(String),
    /// An account, with its name.
    User(String),
}

/// Whether a name from the list of those asked for a review stands for a team.
pub open spec fn spec_is_team(written: Seq<char>) -> bool {
    written.len() > 0 && written[0] == '#'
}

/// Tells a team from an account.
pub fn classify_reviewer(written: &str) -> (r: ReviewerName)
    ensures
        spec_is_team(written@) ==> (r matches ReviewerName::Team(slug) && slug@
            == written@.skip(1)),
        !spec_is_team(written@) ==> (r matches ReviewerName::User(name) && name@ == written@),
{
    let n = written.unicode_len();
    if n > 0 && written.get_char(0) == '#' {
        let slug = String::from_str(written.substring_char(1, n));
        ReviewerName::Team(slug)
    } else {
        ReviewerName::User(String::from_str(written))
    }
}

/// A name without the characters `(` and `)`.
pub open spec fn spec_remove_all_parens(name: Seq<char>) -> Seq<char>
    decreases name.len(),
{
    if name.len() == 0 {
        Seq::<char>::empty()
    } else {
        let rest = spec_remove_all_parens(name.drop_last());
        if name.last() == '(' || name.last() == ')' {
            rest
        } else {
            rest.push(name.last())
        }
    }
}

/// A name without the characters `(` and `)`.
pub fn remove_all_parens(name: &str) -> (r: String)
    ensures
        r@ == spec_remove_all_parens(name@),
{
    let chars = to_chars(name);
    let mut kept: Vec<char> = Vec::new();
    let mut i: usize = 0;
    while i < chars.len()
        invariant
            i <= chars.len(),
            kept@ == spec_remove_all_parens(chars@.take(i as int)),
        decreases chars.len() - i,
    {
        let c = chars[i];
        assert(chars@.take(i + 1).drop_last() =~= chars@.take(i as int));
        if c != '(' && c != ')' {
            kept.push(c);
        }
        i = i + 1;
    }
    assert(chars@.take(chars@.len() as int) =~= chars@);
    string_from_chars(&kept)
}

/// How an account that the service knows is written back into the message:
/// the name as the operator wrote it and, where the account has a display
/// name, that name in parentheses behind it.
pub open spec fn spec_checked_user(written: Seq<char>, name: Option<Seq<char>>) -> Seq<char> {
    match name {
        Some(name) => written + " ("@ + spec_remove_all_parens(name) + ")"@,
        None => written,
    }
}

/// What is said of a team that the service does not know.
pub open spec fn unknown_team_message(written: Seq<char>) -> Seq<char> {
    "The commit message asks for a review by the unknown team '"@ + written + "'"@
}

/// What is said of an account that the service does not know.
pub open spec fn unknown_user_message(written: Seq<char>) -> Seq<char> {
    "The commit message asks for a review by the unknown user '"@ + written + "'"@
}

/// The failure for a team that the service does not know.
pub fn unknown_team(written: &str) -> (r: SprError)
    ensures
        r@.kind == ErrorKind::Validation,
        r@.messages == seq![unknown_team_message(written@)],
{
    let mut message = concat("The commit message asks for a review by the unknown team '", written);
    message.append("'");
    SprError::new(ErrorKind::Validation, message)
}

/// The failure for an account that the service does not know.
pub fn unknown_user(written: &str) -> (r: SprError)
    ensures
        r@.kind == ErrorKind::Validation,
        r@.messages == seq![unknown_user_message(written@)],
{
    let mut message = concat("The commit message asks for a review by the unknown user '", written);
    message.append("'");
    SprError::new(ErrorKind::Validation, message)
}

/// Those asked for a review of a new pull request, as far as they have been
/// looked up:
/// whom to ask for a review, and how each name is written back into the
/// message.
#[derive(Debug)]
pub struct CheckedReviewers {
    pub requested: PullRequestRequestReviewers,
    pub checked: Vec<String>,
}

impl CheckedReviewers {
    /// Nobody looked up yet.
    pub fn new() -> (r: CheckedReviewers)
        ensures
            r.requested.reviewers.deep_view() == Seq::<Seq<char>>::empty(),
            r.requested.team_reviewers.deep_view() == Seq::<Seq<char>>::empty(),
            r.checked.deep_view() == Seq::<Seq<char>>::empty(),
    {
        let r = CheckedReviewers {
            requested: PullRequestRequestReviewers::new(),
            checked: Vec::new(),
        };
        r
    }

    /// Records a team that the service knows under `slug`; `written` is the
    /// name as the operator wrote it.
    pub fn add_team(&mut self, written: String, slug: String)
        ensures
            final(self).requested.team_reviewers.deep_view()
                == old(self).requested.team_reviewers.deep_view().push(slug@),
            final(self).requested.reviewers.deep_view()
                == old(self).requested.reviewers.deep_view(),
            final(self).checked.deep_view() == old(self).checked.deep_view().push(written@),
    {
        self.requested.team_reviewers.push(slug);
        self.checked.push(written);
    }

    /// Records an account that the service knows under `login`, with the
    /// display name `name` if it has one; `written` is the name as the
    /// operator wrote it.
    pub fn add_user(&mut self, written: String, login: String, name: Option<String>)
        ensures
            final(self).requested.reviewers.deep_view()
                == old(self).requested.reviewers.deep_view().push(login@),
            final(self).requested.team_reviewers.deep_view()
                == old(self).requested.team_reviewers.deep_view(),
            final(self).checked.deep_view() == old(self).checked.deep_view().push(
                spec_checked_user(written@, opt_view(name)),
            ),
    {
        self.requested.reviewers.push(login);
        let entry = match name {
            Some(display) => {
                let mut entry = concat(written.as_str(), " (");
                let bare = remove_all_parens(display.as_str());
                entry.append(bare.as_str());
                entry.append(")");
                entry
            },
            None => written,
        };
        self.checked.push(entry);
    }

    /// Writes the names that were looked up back into the message of the
    /// commit, separated by a comma and a space, and notes that the message
    /// has changed.
    pub fn record(&self, commit: &mut PreparedCommit)
        ensures
            final(commit).message@ == old(commit).message@.insert(
                MessageSection::Reviewers,
                spec_join(self.checked.deep_view(), ", "@),
            ),
            final(commit).message_changed,
            final(commit).oid == old(commit).oid,
            final(commit).parent_oid == old(commit).parent_oid,
            final(commit).pull_request_number == old(commit).pull_request_number,
            final(commit).short_id == old(commit).short_id,
    {
        commit.message.insert(MessageSection::Reviewers, join(&self.checked, ", "));
        commit.message_changed = true;
    }
}

/// What is said where replaying a commit on the trunk gives conflicts.
pub open spec fn conflict_message(master_branch: Seq<char>) -> Seq<char> {
    "This commit cannot be cherry-picked on "@ + master_branch + "."@
}

/// What is said of a pull request that is closed.
pub open spec fn closed_message() -> Seq<char> {
    "Pull request is closed. If you want to open a new one, remove the 'Pull Request' section from the commit message."@
}

/// What is said where the operator leaves the prompt empty.
pub open spec fn abort_message() -> Seq<char> {
    "Aborted as per user request"@
}

/// The outcome of a replay: a failure where the index holds conflicts.
pub fn check_replay(has_conflicts: bool, master_branch: &str) -> (r: Result<()>)
    ensures
        r is Err <==> has_conflicts,
        r matches Err(e) ==> e@.kind == ErrorKind::Conflict && e@.messages == seq![
            conflict_message(master_branch@),
        ],
{
    if has_conflicts {
        let mut message = concat("This commit cannot be cherry-picked on ", master_branch);
        message.append(".");
        Err(SprError::new(ErrorKind::Conflict, message))
    } else {
        Ok(())
    }
}

/// A closed pull request cannot be updated.
pub fn check_open(pull_request: Option<&PullRequest>) -> (r: Result<()>)
    ensures
        r is Err <==> (pull_request matches Some(pr) && pr.state == PullRequestState::Closed),
        r matches Err(e) ==> e@.kind == ErrorKind::Validation && e@.messages == seq![
            closed_message(),
        ],
{
    match pull_request {
        Some(pr) => {
            if pr.state == PullRequestState::Closed {
                return Err(
                    SprError::new(
                        ErrorKind::Validation,
                        String::from_str(
                            "Pull request is closed. If you want to open a new one, remove the 'Pull Request' section from the commit message.",
                        ),
                    ),
                );
            }
            Ok(())
        },
        None => Ok(()),
    }
}

/// Whether the local message has to be valid for the pass to go on: it is
/// about to be shown on the service, in a new pull request or because the
/// operator asked to update the message.
pub open spec fn spec_must_validate(
    pull_request_number: Option<u64>,
    update_message: bool,
) -> bool {
    pull_request_number is None || update_message
}

/// Whether the local message has to be valid for the pass to go on.
pub fn must_validate(commit: &PreparedCommit, opts: &DiffOptions) -> (r: bool)
    ensures
        r == spec_must_validate(commit.pull_request_number, opts.update_message),
{
    commit.pull_request_number.is_none() || opts.update_message
}

/// Whether the operator has to be asked for the message of the update: there
/// is a pull request already and no message was given.
pub fn needs_prompt(opts: &DiffOptions, has_pull_request: bool) -> (r: bool)
    ensures
        r == (has_pull_request && opts.message is None),
{
    has_pull_request && opts.message.is_none()
}

/// Takes the operator's answer to the prompt. An empty answer aborts the pass;
/// any other answer is the message, and is what the next prompt starts with.
pub fn accept_prompt_answer(answer: String, message_on_prompt: &mut String) -> (r: Result<String>)
    ensures
        r is Ok <==> answer@.len() > 0,
        r matches Ok(message) ==> message@ == answer@ && final(message_on_prompt)@ == answer@,
        r matches Err(e) ==> e@.kind == ErrorKind::UserAbort && e@.messages == seq![
            abort_message(),
        ] && *final(message_on_prompt) == *old(message_on_prompt),
{
    if answer.as_str().unicode_len() == 0 {
        return Err(
            SprError::new(ErrorKind::UserAbort, String::from_str("Aborted as per user request")),
        );
    }
    *message_on_prompt = answer.clone();
    Ok(answer)
}

/// The message of a new commit of the pull request branch: the message that
/// the operator gave, or a fixed one, and a line that names this tool.
pub open spec fn spec_pr_commit_message(message: Option<Seq<char>>, version: Seq<char>) -> Seq<
    char,
> {
    (match message {
        Some(m) => m,
        None => "[jj-spr] initial version"@,
    }) + "\n\nCreated using jj-spr "@ + version
}

/// The message of a new commit of the pull request branch.
pub fn pr_commit_message(message: Option<&String>, version: &str) -> (r: String)
    ensures
        r@ == spec_pr_commit_message(
            match message {
                Some(m) => Some(m@),
                None => None,
            },
            version@,
        ),
{
    let mut text = match message {
        Some(m) => m.clone(),
        None => String::from_str("[jj-spr] initial version"),
    };
    text.append("\n\nCreated using jj-spr ");
    text.append(version);
    text
}

/// The message of a new commit of a base branch.
pub open spec fn spec_base_commit_message(
    has_pull_request: bool,
    master_branch: Seq<char>,
    version: Seq<char>,
) -> Seq<char> {
    "[spr] "@ + (if has_pull_request {
        "changes introduced through rebase"@
    } else {
        "changes to "@ + master_branch + " this commit is based on"@
    }) + "\n\nCreated using jj-spr "@ + version + "\n\n[skip ci]"@
}

/// The message of a new commit of a base branch.
pub fn base_commit_message(has_pull_request: bool, master_branch: &str, version: &str) -> (r:
    String)
    ensures
        r@ == spec_base_commit_message(has_pull_request, master_branch@, version@),
{
    let mut text = String::from_str("[spr] ");
    if has_pull_request {
        text.append("changes introduced through rebase");
    } else {
        text.append("changes to ");
        text.append(master_branch);
        text.append(" this commit is based on");
    }
    text.append("\n\nCreated using jj-spr ");
    text.append(version);
    text.append("\n\n[skip ci]");
    text
}

/// One update of a push: the commit that a reference of the remote is set to.
#[derive(Debug)]
pub struct RefUpdate {
    pub commit: Oid,
    pub reference: String,
}

/// The mathematical value of a [`RefUpdate`].
pub ghost struct RefUpdateView {
    pub commit: Seq<u8>,
    pub reference: Seq<char>,
}

impl View for RefUpdate {
    type V = RefUpdateView;

    open spec fn view(&self) -> RefUpdateView {
        RefUpdateView { commit: self.commit@, reference: self.reference@ }
    }
}

/// The views of a list of updates, in the same order.
pub open spec fn update_views(updates: Seq<RefUpdate>) -> Seq<RefUpdateView> {
    updates.map_values(|u: RefUpdate| u@)
}

/// The updates of one push: always the pull request branch and, where a new
/// commit was made for the base branch, the base branch.
pub open spec fn spec_push_updates(
    pr_commit: Seq<u8>,
    pr_reference: Seq<char>,
    base: Option<(Seq<u8>, Seq<char>)>,
) -> Seq<RefUpdateView> {
    let head = RefUpdateView { commit: pr_commit, reference: pr_reference };
    match base {
        Some((commit, reference)) => seq![head, RefUpdateView { commit, reference }],
        None => seq![head],
    }
}

/// The updates of one push.
pub fn push_updates(
    pr_commit: Oid,
    pull_request_branch: &GitHubBranch,
    base: Option<(Oid, &GitHubBranch)>,
) -> (r: Vec<RefUpdate>)
    ensures
        update_views(r@) == spec_push_updates(
            pr_commit@,
            pull_request_branch.ref_on_github@,
            match base {
                Some((commit, branch)) => Some((commit@, branch.ref_on_github@)),
                None => None,
            },
        ),
{
    let mut updates: Vec<RefUpdate> = Vec::new();
    updates.push(
        RefUpdate {
            commit: pr_commit,
            reference: String::from_str(pull_request_branch.on_github()),
        },
    );
    match base {
        Some((commit, branch)) => {
            updates.push(RefUpdate { commit, reference: String::from_str(branch.on_github()) });
        },
        None => {},
    }
    updates
}

/// How one update is written for the push transport: the commit in
/// hexadecimal, a colon, and the reference.
pub open spec fn spec_refspec(update: RefUpdateView) -> Seq<char> {
    hex_text(update.commit) + ":"@ + update.reference
}

/// The arguments of the push: atomic, without verification hooks, to the
/// remote `remote_name`, one argument for each update.
pub open spec fn spec_push_args(remote_name: Seq<char>, updates: Seq<RefUpdateView>) -> Seq<
    Seq<char>,
> {
    seq!["push"@, "--atomic"@, "--no-verify"@, "--"@, remote_name] + updates.map_values(
        |u: RefUpdateView| spec_refspec(u),
    )
}

/// The arguments of the push.
pub fn push_args(remote_name: &str, updates: &Vec<RefUpdate>) -> (r: Vec<String>)
    ensures
        r.deep_view() == spec_push_args(remote_name@, update_views(updates@)),
{
    let mut args: Vec<String> = Vec::new();
    args.push(String::from_str("push"));
    args.push(String::from_str("--atomic"));
    args.push(String::from_str("--no-verify"));
    args.push(String::from_str("--"));
    args.push(String::from_str(remote_name));
    let ghost fixed = seq!["push"@, "--atomic"@, "--no-verify"@, "--"@, remote_name@];
    let mut i: usize = 0;
    while i < updates.len()
        invariant
            i <= updates.len(),
            args.deep_view() == fixed + update_views(updates@).take(i as int).map_values(
                |u: RefUpdateView| spec_refspec(u),
            ),
        decreases updates.len() - i,
    {
        let ghost before = args.deep_view();
        let mut spec = updates[i].commit.to_hex();
        spec.append(":");
        spec.append(updates[i].reference.as_str());
        args.push(spec);
        proof {
            let views = update_views(updates@);
            assert(args.deep_view() =~= before.push(spec_refspec(views[i as int])));
        }
        i = i + 1;
    }
    args
}

/// The base that an update sets for the pull request: the base branch, where
/// the pull request is compared with one after the pass and is not set to it
/// yet.
pub open spec fn spec_base_update(shown_base: Seq<char>, base_branch: Option<Seq<char>>) -> Option<
    Seq<char>,
> {
    match base_branch {
        Some(name) => if shown_base != name {
            Some(name)
        } else {
            None
        },
        None => None,
    }
}

/// What is changed on an existing pull request once the push is done: the
/// title and the description where the operator asked to update the message
/// and they differ, and the base where the pull request is not set to its
/// base branch yet.
pub fn update_after_push(
    update_message: bool,
    pull_request: &PullRequest,
    title: Option<&String>,
    body: &String,
    base_branch: Option<&GitHubBranch>,
) -> (r: PullRequestUpdate)
    ensures
        opt_view(r.title) == (if update_message {
            spec_title_update(
                opt_view(pull_request.title),
                match title {
                    Some(t) => Some(t@),
                    None => None,
                },
            )
        } else {
            None
        }),
        opt_view(r.body) == (if update_message {
            spec_body_update(opt_view(pull_request.body), body@)
        } else {
            None
        }),
        opt_view(r.base) == spec_base_update(
            pull_request.base.name@,
            match base_branch {
                Some(b) => Some(b.name@),
                None => None,
            },
        ),
{
    let mut update = PullRequestUpdate::new();
    if update_message {
        update.update_message(pull_request, title, body);
    }
    match base_branch {
        Some(branch) => {
            if !str_eq(pull_request.base.branch_name(), branch.branch_name()) {
                update.base = Some(String::from_str(branch.branch_name()));
            }
        },
        None => {},
    }
    update
}

/// Whether the message on the service differs from the local one: an update
/// of the message would change the title or the description.
pub open spec fn spec_message_differs(
    pull_request: &PullRequest,
    title: Option<Seq<char>>,
    body: Seq<char>,
) -> bool {
    spec_title_update(opt_view(pull_request.title), title) is Some || spec_body_update(
        opt_view(pull_request.body),
        body,
    ) is Some
}

/// The title section of a message, if it has one.
pub open spec fn spec_title(message: Map<MessageSection, Seq<char>>) -> Option<Seq<char>> {
    if message.contains_key(MessageSection::Title) {
        Some(message[MessageSection::Title])
    } else {
        None
    }
}

/// What is changed on a pull request that is up to date where the operator
/// asked to update the message: the title and the description as far as they
/// differ, and nothing where they do not or where the operator did not ask.
pub fn update_when_up_to_date(
    update_message: bool,
    pull_request: &PullRequest,
    title: Option<&String>,
    body: &String,
) -> (r: Option<PullRequestUpdate>)
    ensures
        r is Some <==> update_message && (spec_title_update(
            opt_view(pull_request.title),
            match title {
                Some(t) => Some(t@),
                None => None,
            },
        ) is Some || spec_body_update(opt_view(pull_request.body), body@) is Some),
        r matches Some(u) ==> u.base is None && opt_view(u.title) == spec_title_update(
            opt_view(pull_request.title),
            match title {
                Some(t) => Some(t@),
                None => None,
            },
        ) && opt_view(u.body) == spec_body_update(opt_view(pull_request.body), body@),
{
    if !update_message {
        return None;
    }
    let mut update = PullRequestUpdate::new();
    update.update_message(pull_request, title, body);
    if update.is_empty() {
        None
    } else {
        Some(update)
    }
}

/// Whether the operator is to be told that the message on the service differs
/// from the local one: there is a pull request, the operator did not ask to
/// update the message, and an update would change the title or the
/// description.
pub fn message_differs(
    update_message: bool,
    pull_request: Option<&PullRequest>,
    title: Option<&String>,
    body: &String,
) -> (r: bool)
    ensures
        r == (pull_request matches Some(pr) && !update_message && (spec_title_update(
            opt_view(pr.title),
            match title {
                Some(t) => Some(t@),
                None => None,
            },
        ) is Some || spec_body_update(opt_view(pr.body), body@) is Some)),
{
    match pull_request {
        Some(pr) => {
            if update_message {
                false
            } else {
                let mut update = PullRequestUpdate::new();
                update.update_message(pr, title, body);
                !update.is_empty()
            }
        },
        None => false,
    }
}

/// Records on the local commit that a pull request was made for it: the
/// message gets the address of the pull request, and is noted as changed.
pub fn record_pull_request(commit: &mut PreparedCommit, config: &Config, number: u64)
    ensures
        final(commit).message@ == old(commit).message@.insert(
            MessageSection::PullRequest,
            spec_pull_request_url(config.owner@, config.repo@, number),
        ),
        final(commit).message_changed,
        final(commit).oid == old(commit).oid,
        final(commit).parent_oid == old(commit).parent_oid,
        final(commit).pull_request_number == old(commit).pull_request_number,
        final(commit).short_id == old(commit).short_id,
{
    commit.message.insert(MessageSection::PullRequest, config.pull_request_url(number));
    commit.message_changed = true;
}

/// The trees that the pull request of a commit gets that is submitted as
/// replayed on the trunk base: the tree of the replay for its head, and the
/// tree of the trunk base for its base. A replay with conflicts gives no
/// trees.
pub fn replay_targets(
    has_conflicts: bool,
    replayed_tree: Oid,
    trunk_tree: Oid,
    master_branch: &str,
) -> (r: Result<Targets>)
    ensures
        r is Err <==> has_conflicts,
        r matches Ok(targets) ==> targets.head_tree == replayed_tree && targets.base_tree
            == trunk_tree,
        r matches Err(e) ==> e@.kind == ErrorKind::Conflict && e@.messages == seq![
            conflict_message(master_branch@),
        ],
{
    check_replay(has_conflicts, master_branch)?;
    Ok(Targets { head_tree: replayed_tree, base_tree: trunk_tree })
}

/// Whether `targets` are the trees that the pull request of a commit must
/// get: the trees of the commit and of its parent, or, where the commit is
/// submitted as replayed on the trunk base and does not stand on it already,
/// the tree of the replay and the tree of the trunk base.
pub open spec fn targets_hold(
    backend: &Backend,
    cherry_pick: bool,
    commit: Seq<u8>,
    parent: Seq<u8>,
    master_base: Seq<u8>,
    targets: Targets,
) -> bool {
    if !cherry_pick || parent == master_base {
        backend.has_tree(commit, targets.head_tree@) && backend.has_tree(parent, targets.base_tree@)
    } else {
        backend.has_tree(master_base, targets.base_tree@)
    }
}

/// Finds the trees that the head and the base of the pull request must have
/// when the pass is done.
///
/// Without `cherry_pick`, or where the commit stands directly on the trunk
/// base, they are the trees of the commit and of its parent. Otherwise the
/// commit is replayed on the trunk base: a replay with conflicts fails, and
/// one without gives the tree of the head, while the base gets the tree of the
/// trunk base.
pub fn compute_targets(
    backend: &Backend,
    cherry_pick: bool,
    local_commit: &PreparedCommit,
    master_base_oid: Oid,
    master_branch: &str,
) -> (r: Result<Targets>)
    ensures
        r matches Ok(targets) ==> targets_hold(
            backend,
            cherry_pick,
            local_commit.oid@,
            local_commit.parent_oid@,
            master_base_oid@,
            targets,
        ),
        r matches Err(e) ==> e@.kind == ErrorKind::Backend || (e@.kind == ErrorKind::Conflict
            && cherry_pick && local_commit.parent_oid@ != master_base_oid@ && e@.messages
            == seq![conflict_message(master_branch@)]),
{
    let directly_based_on_master = local_commit.parent_oid == master_base_oid;
    if !cherry_pick || directly_based_on_master {
        let head_tree = backend.get_tree_oid_for_commit(local_commit.oid)?;
        let base_tree = backend.get_tree_oid_for_commit(local_commit.parent_oid)?;
        Ok(Targets { head_tree, base_tree })
    } else {
        let index = backend.cherrypick(local_commit.oid, master_base_oid)?;
        let has_conflicts = crate::repo::index_has_conflicts(&index);
        check_replay(has_conflicts, master_branch)?;
        let replayed_tree = backend.write_index(index)?;
        let trunk_tree = backend.get_tree_oid_for_commit(master_base_oid)?;
        replay_targets(has_conflicts, replayed_tree, trunk_tree, master_branch)
    }
}

/// Whether `status` is what the store shows of a pull request, or what stands
/// for one that does not exist yet: each tree in it is the tree of the commit
/// beside it.
pub open spec fn status_holds(
    backend: &Backend,
    pull_request: Option<&PullRequest>,
    master_base: Seq<u8>,
    status: PullRequestStatus,
) -> bool {
    &&& backend.has_tree(status.head_oid@, status.head_tree@)
    &&& backend.has_tree(status.base_oid@, status.base_tree@)
    &&& match pull_request {
        Some(pr) => status.head_oid@ == pr.head_oid@ && crate::repo::finds_merge_base(
            backend.repo(),
            pr.head_oid@,
            pr.base_oid@,
            status.base_oid@,
        ) && exists|master_tip: Seq<u8>| #[trigger]
            crate::repo::finds_merge_base(
                backend.repo(),
                pr.head_oid@,
                master_tip,
                status.master_base@,
            ),
        None => status.head_oid@ == master_base && status.base_oid@ == master_base
            && status.master_base@ == master_base,
    }
}

/// Whether `status` is what the store shows of a pull request while the tip
/// of the trunk is `master_tip`, or what stands for a pull request that does
/// not exist yet. For an existing pull request the commit that it is
/// compared with is the merge base that the store finds for its head and the
/// tip of its base, and the trunk commit that it is based on is the merge
/// base that the store finds for its head and the tip of the trunk.
pub open spec fn status_holds_at(
    backend: &Backend,
    pull_request: Option<&PullRequest>,
    master_base: Seq<u8>,
    master_tip: Seq<u8>,
    status: PullRequestStatus,
) -> bool {
    &&& backend.has_tree(status.head_oid@, status.head_tree@)
    &&& backend.has_tree(status.base_oid@, status.base_tree@)
    &&& match pull_request {
        Some(pr) => status.head_oid@ == pr.head_oid@ && crate::repo::finds_merge_base(
            backend.repo(),
            pr.head_oid@,
            pr.base_oid@,
            status.base_oid@,
        ) && crate::repo::finds_merge_base(
            backend.repo(),
            pr.head_oid@,
            master_tip,
            status.master_base@,
        ),
        None => status.head_oid@ == master_base && status.base_oid@ == master_base
            && status.master_base@ == master_base,
    }
}

/// Reads from the store what a pull request is made of, while the tip of the
/// trunk is the commit `master_tip`.
pub fn examine_at(
    backend: &Backend,
    pull_request: Option<&PullRequest>,
    master_base_oid: Oid,
    master_tip: Oid,
) -> (r: Result<PullRequestStatus>)
    ensures
        r matches Ok(status) ==> status_holds_at(
            backend,
            pull_request,
            master_base_oid@,
            master_tip@,
            status,
        ),
        r matches Err(e) ==> e@.kind == ErrorKind::Backend,
{
    match pull_request {
        Some(pr) => {
            let head_tree = backend.get_tree_oid_for_commit(pr.head_oid)?;
            let base_oid = backend.merge_base(pr.head_oid, pr.base_oid)?;
            let base_tree = backend.get_tree_oid_for_commit(base_oid)?;
            let master_base = backend.merge_base(pr.head_oid, master_tip)?;
            Ok(
                PullRequestStatus {
                    head_oid: pr.head_oid,
                    head_tree,
                    base_oid,
                    base_tree,
                    master_base,
                },
            )
        },
        None => {
            let master_base_tree = backend.get_tree_oid_for_commit(master_base_oid)?;
            Ok(PullRequestStatus::new_pull_request(master_base_oid, master_base_tree))
        },
    }
}

/// Reads from the store what a pull request is made of.
///
/// For an existing pull request the commit that it is compared with is the
/// merge base of its head and the tip of its base, and the trunk commit that
/// it is based on is the merge base of its head and the tip of the trunk,
/// which is the commit that `master_ref_local` leads to; [`examine_at`] reads
/// the rest once the tip is known. Where there is no pull request, all
/// commits are the trunk base of the stack.
pub fn examine(
    backend: &Backend,
    pull_request: Option<&PullRequest>,
    master_base_oid: Oid,
    master_ref_local: &str,
) -> (r: Result<PullRequestStatus>)
    ensures
        r matches Ok(status) ==> status_holds(backend, pull_request, master_base_oid@, status),
        r matches Err(e) ==> e@.kind == ErrorKind::Backend,
{
    let master_tip = match pull_request {
        Some(_) => backend.resolve_reference(master_ref_local)?,
        None => master_base_oid,
    };
    examine_at(backend, pull_request, master_base_oid, master_tip)
}

/// What the first step of a pass over one commit found.
#[derive(Debug)]
pub struct Begun {
    /// The trees that the pull request must get.
    pub targets: Targets,
    /// Whether the message on the service differs from the local one while
    /// the operator did not ask to update it.
    pub message_differs: bool,
    /// The names to look up: the text of the section that asks for reviews of the
    /// message, where the pull request is yet to be made and the message has
    /// the section.
    pub reviewers: Option<String>,
}

/// The first step of the pass over one commit: everything that is settled
/// before the service is asked about accounts and teams.
///
/// `validation` is what the check of the local message found, and `body` the
/// description written from the message. The message has to be valid only
/// where it is about to be shown on the service.
///
/// The step fails, in this order: where the trees cannot be found or the
/// replay has conflicts; where the message has to be valid and is not, with
/// the failure in `validation`; where the pull request is closed.
pub fn begin(
    opts: &DiffOptions,
    backend: &Backend,
    config: &Config,
    local_commit: &PreparedCommit,
    master_base_oid: Oid,
    pull_request: Option<&PullRequest>,
    validation: Result<()>,
    body: &String,
) -> (r: Result<Begun>)
    ensures
        r matches Ok(begun) ==> {
            &&& targets_hold(
                backend,
                opts.cherry_pick,
                local_commit.oid@,
                local_commit.parent_oid@,
                master_base_oid@,
                begun.targets,
            )
            &&& spec_must_validate(local_commit.pull_request_number, opts.update_message)
                ==> validation is Ok
            &&& !(pull_request matches Some(pr) && pr.state == PullRequestState::Closed)
            &&& begun.message_differs == (pull_request matches Some(pr) && !opts.update_message
                && spec_message_differs(pr, spec_title(local_commit.message@), body@))
            &&& opt_view(begun.reviewers) == (if local_commit.pull_request_number is None
                && local_commit.message@.contains_key(MessageSection::Reviewers) {
                Some(local_commit.message@[MessageSection::Reviewers])
            } else {
                None
            })
        },
        r matches Err(e) ==> {
            ||| e@.kind == ErrorKind::Backend
            ||| e@.kind == ErrorKind::Conflict && opts.cherry_pick && local_commit.parent_oid@
                != master_base_oid@ && e@.messages == seq![
                conflict_message(config.master_ref.name@),
            ]
            ||| spec_must_validate(local_commit.pull_request_number, opts.update_message)
                && validation == Err::<(), SprError>(e)
            ||| (pull_request matches Some(pr) && pr.state == PullRequestState::Closed) && e@.kind
                == ErrorKind::Validation && e@.messages == seq![closed_message()]
        },
{
    let targets = compute_targets(
        backend,
        opts.cherry_pick,
        local_commit,
        master_base_oid,
        config.master_ref.branch_name(),
    )?;
    if must_validate(local_commit, opts) {
        match validation {
            Ok(()) => {},
            Err(e) => {
                return Err(e);
            },
        }
    }
    check_open(pull_request)?;
    let differs = message_differs(
        opts.update_message,
        pull_request,
        local_commit.message.get(MessageSection::Title),
        body,
    );
    let reviewers = if local_commit.pull_request_number.is_none() {
        match local_commit.message.get(MessageSection::Reviewers) {
            Some(text) => Some(text.clone()),
            None => None,
        }
    } else {
        None
    };
    Ok(Begun { targets, message_differs: differs, reviewers })
}

/// What a pass has settled for one commit before anything is pushed.
#[derive(Debug)]
pub struct Prepared {
    /// What the choice was made from.
    pub input: SyncInput,
    /// What was chosen.
    pub decision: SynchronizationDecision,
    /// The branch of the pull request.
    pub pull_request_branch: GitHubBranch,
    /// The base branch that the pull request is compared with after the pass,
    /// if any.
    pub base_branch: Option<GitHubBranch>,
    /// The commit to merge into the pull request branch, if any.
    pub merged_parent: Option<Oid>,
    /// Whether the operator has to be asked for the message of the update.
    pub needs_prompt: bool,
}

/// What the pass over one commit leads to.
#[derive(Debug)]
pub enum Plan {
    /// The pull request is what it must be: nothing is pushed. `update` is
    /// what to change of its message on the service, if anything.
    UpToDate { input: SyncInput, update: Option<PullRequestUpdate> },
    /// New commits are to be pushed.
    Proceed(Prepared),
}

/// What the choice is made from, for a commit and the trees and the status
/// found for it.
pub open spec fn spec_sync_input(
    cherry_pick: bool,
    parent: Oid,
    master_base_oid: Oid,
    pull_request: Option<&PullRequest>,
    status: PullRequestStatus,
    targets: Targets,
) -> SyncInput {
    SyncInput {
        directly_based_on_master: parent@ == master_base_oid@,
        cherry_pick,
        has_pull_request: pull_request is Some,
        has_base_branch: match pull_request {
            Some(pr) => !pr.base.is_master_branch,
            None => false,
        },
        status,
        targets,
        master_base_oid,
    }
}

/// What the choice is made from.
pub fn sync_input(
    cherry_pick: bool,
    parent: Oid,
    master_base_oid: Oid,
    pull_request: Option<&PullRequest>,
    status: PullRequestStatus,
    targets: Targets,
) -> (r: SyncInput)
    ensures
        r == spec_sync_input(cherry_pick, parent, master_base_oid, pull_request, status, targets),
{
    SyncInput {
        directly_based_on_master: parent == master_base_oid,
        cherry_pick,
        has_pull_request: pull_request.is_some(),
        has_base_branch: match pull_request {
            Some(pr) => !pr.base.is_master_branch(),
            None => false,
        },
        status,
        targets,
        master_base_oid,
    }
}

/// The branch of the pull request: the one it has, or a new one with the first
/// name that is not taken.
pub fn pull_request_branch(
    backend: &Backend,
    config: &Config,
    pull_request: Option<&PullRequest>,
    title_slug: &str,
) -> (r: Result<GitHubBranch>)
    ensures
        r matches Ok(branch) ==> (match pull_request {
            Some(pr) => branch.name@ == pr.head.name@ && branch.ref_on_github@
                == pr.head.ref_on_github@,
            None => branch.wf() && exists|k: u64|
                branch.name@ == #[trigger] spec_candidate_name(
                    config.branch_prefix@,
                    title_slug@,
                    k,
                ),
        }),
        r matches Err(e) ==> e@.kind == ErrorKind::Backend && pull_request is None,
{
    match pull_request {
        Some(pr) => Ok(pr.head.duplicate()),
        None => {
            let names = backend.get_all_ref_names()?;
            let name = config.find_unused_branch_name(&names, title_slug)?;
            Ok(config.new_github_branch(name.as_str()))
        },
    }
}

/// Whether `prepared` is what the ladder asks for on `input`, for a local
/// commit whose parent is `parent`. A commit that was made for the base
/// branch stands for that parent.
pub open spec fn prepared_holds(
    backend: &Backend,
    pull_request: Option<&PullRequest>,
    input: SyncInput,
    prepared: Prepared,
    parent: Seq<u8>,
    master_branch: Seq<char>,
    version: Seq<char>,
) -> bool {
    &&& prepared.input == input
    &&& prepared.decision@ == spec_decide(input)
    &&& prepared.base_branch is Some <==> prepared.decision.base_branch_required
    &&& match prepared.decision.case {
        LadderCase::UnchangedBase => prepared.merged_parent is None,
        LadderCase::TrunkFold => prepared.merged_parent matches Some(parent) && parent@
            == input.master_base_oid@,
        LadderCase::BaseBranch => prepared.merged_parent matches Some(made) && backend.has_tree(
            made@,
            input.targets.base_tree@,
        ) && crate::repo::has_parents(backend.repo(), made@, spec_base_parents(input))
            && backend.has_derived_message(
            made@,
            spec_base_commit_message(pull_request is Some, master_branch, version),
        ) && backend.is_derived(parent, made@),
    }
    &&& match pull_request {
        Some(pr) => !pr.base.is_master_branch ==> (prepared.base_branch matches Some(branch)
            && branch.name@ == pr.base.name@),
        None => true,
    }
}

/// The second step of the pass over one commit: reads what the pull request
/// is made of, decides whether and how to update it, and makes the commit for
/// the base branch where the ladder asks for one.
///
/// `title_slug` is the title of the commit in the form used for the names of
/// branches, `body` the description written from the message, and `version`
/// the version of this tool, which is named in the messages of the commits
/// that it makes.
pub fn plan(
    opts: &DiffOptions,
    backend: &Backend,
    config: &Config,
    local_commit: &PreparedCommit,
    master_base_oid: Oid,
    pull_request: Option<&PullRequest>,
    targets: Targets,
    title_slug: &str,
    body: &String,
    version: &str,
) -> (r: Result<Plan>)
    ensures
        r matches Ok(Plan::UpToDate { input, update }) ==> {
            &&& status_holds(backend, pull_request, master_base_oid@, input.status)
            &&& input == spec_sync_input(
                opts.cherry_pick,
                local_commit.parent_oid,
                master_base_oid,
                pull_request,
                input.status,
                targets,
            )
            &&& spec_no_update_necessary(input)
            &&& pull_request is Some
            &&& update is Some <==> opts.update_message && spec_message_differs(
                pull_request->0,
                spec_title(local_commit.message@),
                body@,
            )
            &&& update matches Some(u) ==> u.base is None && opt_view(u.title)
                == spec_title_update(
                opt_view(pull_request->0.title),
                spec_title(local_commit.message@),
            ) && opt_view(u.body) == spec_body_update(opt_view(pull_request->0.body), body@)
        },
        r matches Ok(Plan::Proceed(prepared)) ==> {
            &&& status_holds(backend, pull_request, master_base_oid@, prepared.input.status)
            &&& prepared.input == spec_sync_input(
                opts.cherry_pick,
                local_commit.parent_oid,
                master_base_oid,
                pull_request,
                prepared.input.status,
                targets,
            )
            &&& !spec_no_update_necessary(prepared.input)
            &&& prepared_holds(
                backend,
                pull_request,
                prepared.input,
                prepared,
                local_commit.parent_oid@,
                config.master_ref.name@,
                version@,
            )
            &&& prepared.needs_prompt == (pull_request is Some && opts.message is None)
            &&& match pull_request {
                Some(pr) => prepared.pull_request_branch.name@ == pr.head.name@
                    && prepared.pull_request_branch.ref_on_github@ == pr.head.ref_on_github@,
                None => prepared.pull_request_branch.wf() && exists|k: u64|
                    prepared.pull_request_branch.name@ == #[trigger] spec_candidate_name(
                        config.branch_prefix@,
                        title_slug@,
                        k,
                    ),
            }
            &&& prepared.base_branch matches Some(branch) ==> (match pull_request {
                Some(pr) if !pr.base.is_master_branch => branch.name@ == pr.base.name@
                    && branch.ref_on_github@ == pr.base.ref_on_github@,
                _ => branch.wf() && exists|k: u64|
                    branch.name@ == #[trigger] spec_candidate_name(
                        config.branch_prefix@,
                        config.master_ref.name@ + "."@ + title_slug@,
                        k,
                    ),
            })
        },
        r matches Err(e) ==> e@.kind == ErrorKind::Backend,
{
    let branch = pull_request_branch(backend, config, pull_request, title_slug)?;
    let status = examine(backend, pull_request, master_base_oid, config.master_ref.local())?;
    let input = sync_input(
        opts.cherry_pick,
        local_commit.parent_oid,
        master_base_oid,
        pull_request,
        status,
        targets,
    );
    if no_update_necessary(&input) {
        let update = match pull_request {
            Some(pr) => update_when_up_to_date(
                opts.update_message,
                pr,
                local_commit.message.get(MessageSection::Title),
                body,
            ),
            None => None,
        };
        return Ok(Plan::UpToDate { input, update });
    }
    let decision = decide(&input);
    let existing_base = match pull_request {
        Some(pr) => if pr.base.is_master_branch() {
            None
        } else {
            Some(pr.base.duplicate())
        },
        None => None,
    };
    let (merged_parent, base_branch) = match decision.case {
        LadderCase::UnchangedBase => (None, existing_base),
        LadderCase::TrunkFold => (Some(master_base_oid), None),
        LadderCase::BaseBranch => {
            let message = base_commit_message(
                pull_request.is_some(),
                config.master_ref.branch_name(),
                version,
            );
            let base_commit = backend.create_derived_commit(
                local_commit.parent_oid,
                message.as_str(),
                decision.new_base_tree,
                &decision.base_parents,
            )?;
            let base_branch = match existing_base {
                Some(branch) => branch,
                None => {
                    let names = backend.get_all_ref_names()?;
                    let slug = config.base_branch_slug(title_slug);
                    let name = config.find_unused_branch_name(&names, slug.as_str())?;
                    config.new_github_branch(name.as_str())
                },
            };
            (Some(base_commit), Some(base_branch))
        },
    };
    Ok(
        Plan::Proceed(
            Prepared {
                input,
                decision,
                pull_request_branch: branch,
                base_branch,
                merged_parent,
                needs_prompt: needs_prompt(opts, pull_request.is_some()),
            },
        ),
    )
}

/// What to ask of the service once the push is done.
#[derive(Debug)]
pub enum AfterPush {
    /// Change the pull request `number` as `update` says, unless `update` is
    /// empty. `rebased` says whether the trunk was merged in.
    Update { number: u64, update: PullRequestUpdate, rebased: bool },
    /// Make a pull request from the branch `head` against the branch `base`.
    Create { base: String, head: String, draft: bool },
}

/// Everything that leaves the machine for one commit: one atomic push and one
/// request to the service.
#[derive(Debug)]
pub struct PushPlan {
    /// The new commit of the pull request branch.
    pub pr_commit: Oid,
    /// The references that the push sets, all or none.
    pub updates: Vec<RefUpdate>,
    pub after: AfterPush,
}

/// The base branch and the commit to push for it, where the pass made one.
pub open spec fn spec_base_push(prepared: Prepared) -> Option<(Seq<u8>, Seq<char>)> {
    match (prepared.base_branch, prepared.merged_parent) {
        (Some(branch), Some(commit)) => Some((commit@, branch.ref_on_github@)),
        _ => None,
    }
}

/// The third step of the pass over one commit: makes the new commit of the
/// pull request branch and says what to push and what to ask of the service.
///
/// `message` is the message for the update: the one the operator gave with
/// the command or at the prompt, if any.
pub fn finish(
    opts: &DiffOptions,
    backend: &Backend,
    config: &Config,
    local_commit: &PreparedCommit,
    pull_request: Option<&PullRequest>,
    prepared: &Prepared,
    message: Option<&String>,
    body: &String,
    version: &str,
) -> (r: Result<PushPlan>)
    ensures
        r matches Ok(push) ==> {
            &&& backend.has_tree(push.pr_commit@, prepared.decision.new_head_tree@)
            &&& backend.has_derived_message(
                push.pr_commit@,
                spec_pr_commit_message(
                    match message {
                        Some(m) => Some(m@),
                        None => None,
                    },
                    version@,
                ),
            )
            &&& backend.is_derived(local_commit.oid@, push.pr_commit@)
            &&& crate::repo::has_parents(
                backend.repo(),
                push.pr_commit@,
                spec_pr_commit_parents(
                    prepared.input.status.head_oid@,
                    match prepared.merged_parent {
                        Some(m) => Some(m@),
                        None => None,
                    },
                ),
            )
            &&& update_views(push.updates@) == spec_push_updates(
                push.pr_commit@,
                prepared.pull_request_branch.ref_on_github@,
                spec_base_push(*prepared),
            )
            &&& match pull_request {
                Some(pr) => push.after matches AfterPush::Update { number, update, rebased }
                    && number == pr.number && rebased == prepared.decision.needs_merging_master
                    && opt_view(update.base) == spec_base_update(
                    pr.base.name@,
                    match prepared.base_branch {
                        Some(b) => Some(b.name@),
                        None => None,
                    },
                ) && opt_view(update.title) == (if opts.update_message {
                    spec_title_update(opt_view(pr.title), spec_title(local_commit.message@))
                } else {
                    None
                }) && opt_view(update.body) == (if opts.update_message {
                    spec_body_update(opt_view(pr.body), body@)
                } else {
                    None
                }),
                None => push.after matches AfterPush::Create { base, head, draft } && draft
                    == opts.draft && head@ == prepared.pull_request_branch.name@ && base@ == (
                match prepared.base_branch {
                    Some(b) => b.name@,
                    None => config.master_ref.name@,
                }),
            }
        },
        r matches Err(e) ==> e@.kind == ErrorKind::Backend,
{
    let parents = pr_commit_parents(prepared.input.status.head_oid, prepared.merged_parent);
    let text = pr_commit_message(message, version);
    let pr_commit = backend.create_derived_commit(
        local_commit.oid,
        text.as_str(),
        prepared.decision.new_head_tree,
        &parents,
    )?;
    let base = match (&prepared.base_branch, prepared.merged_parent) {
        (Some(branch), Some(commit)) => Some((commit, branch)),
        _ => None,
    };
    let updates = push_updates(pr_commit, &prepared.pull_request_branch, base);
    let after = match pull_request {
        Some(pr) => AfterPush::Update {
            number: pr.number,
            update: update_after_push(
                opts.update_message,
                pr,
                local_commit.message.get(MessageSection::Title),
                body,
                prepared.base_branch.as_ref(),
            ),
            rebased: prepared.decision.needs_merging_master,
        },
        None => AfterPush::Create {
            base: match &prepared.base_branch {
                Some(branch) => String::from_str(branch.branch_name()),
                None => String::from_str(config.master_ref.branch_name()),
            },
            head: String::from_str(prepared.pull_request_branch.branch_name()),
            draft: opts.draft,
        },
    };
    Ok(PushPlan { pr_commit, updates, after })
}

/// The commit that the head of the pull request is compared with once the
/// pass is done: the commit it was compared with where the base is unchanged,
/// the trunk base where the trunk is folded in, and the new commit of the
/// base branch where one was made.
pub open spec fn spec_compared_commit(prepared: Prepared) -> Seq<u8> {
    match prepared.decision.case {
        LadderCase::UnchangedBase => prepared.input.status.base_oid@,
        LadderCase::TrunkFold => prepared.input.master_base_oid@,
        LadderCase::BaseBranch => prepared.merged_parent->0@,
    }
}

/// The pull request shows the change of the local commit and nothing else.
///
/// Let a pass find the trees to aim at, settle what to do, and make the new
/// commit `pr_commit` of the pull request branch, as [`compute_targets`],
/// [`plan`] and [`finish`] do. Then the commit that the pull request is
/// compared with has the tree that was aimed at for the base, and the new
/// commit the tree that was aimed at for the head. Unless the commit is
/// replayed on the trunk, these are the tree of the parent of the local
/// commit and the tree of the local commit: the difference that the service
/// shows is the difference between the local commit and its parent.
pub proof fn lemma_diff_fidelity(
    backend: &Backend,
    cherry_pick: bool,
    commit: Oid,
    parent: Oid,
    master_base_oid: Oid,
    pull_request: Option<&PullRequest>,
    targets: Targets,
    prepared: Prepared,
    pr_commit: Oid,
    master_branch: Seq<char>,
    version: Seq<char>,
)
    requires
        targets_hold(backend, cherry_pick, commit@, parent@, master_base_oid@, targets),
        status_holds(backend, pull_request, master_base_oid@, prepared.input.status),
        prepared.input == spec_sync_input(
            cherry_pick,
            parent,
            master_base_oid,
            pull_request,
            prepared.input.status,
            targets,
        ),
        prepared_holds(
            backend,
            pull_request,
            prepared.input,
            prepared,
            parent@,
            master_branch,
            version,
        ),
        backend.has_tree(pr_commit@, prepared.decision.new_head_tree@),
    ensures
        backend.tree_of(pr_commit@) == targets.head_tree@,
        backend.tree_of(spec_compared_commit(prepared)) == targets.base_tree@,
        !cherry_pick || parent@ == master_base_oid@ ==> backend.tree_of(pr_commit@) == backend.tree_of(
            commit@,
        ) && backend.tree_of(spec_compared_commit(prepared)) == backend.tree_of(parent@),
        cherry_pick && parent@ != master_base_oid@ ==> backend.tree_of(spec_compared_commit(prepared))
            == backend.tree_of(master_base_oid@),
{
}

/// A text in which each remark in parentheses is replaced by a comma. A
/// remark goes from a `(` to the next `)`; a `(` without a `)` behind it
/// stays.
pub open spec fn spec_without_remarks(s: Seq<char>) -> Seq<char>
    decreases s.len(),
{
    if s.len() == 0 {
        Seq::<char>::empty()
    } else if s[0] == '(' && 1 <= find_from(s, ')', 1) < s.len() {
        seq![','] + spec_without_remarks(s.skip(find_from(s, ')', 1) + 1))
    } else {
        seq![s[0]] + spec_without_remarks(s.skip(1))
    }
}

/// The names among `pieces`: each piece without the white space around it,
/// empty ones left out.
pub open spec fn spec_names(pieces: Seq<Seq<char>>) -> Seq<Seq<char>>
    decreases pieces.len(),
{
    if pieces.len() == 0 {
        Seq::<Seq<char>>::empty()
    } else {
        let rest = spec_names(pieces.drop_last());
        let name = trimmed(pieces.last());
        if name.len() == 0 {
            rest
        } else {
            rest.push(name)
        }
    }
}

/// The names in a list that is separated by commas. Remarks in parentheses
/// count as separators, white space around a name is left out, and so are
/// empty names.
pub open spec fn spec_parse_name_list(text: Seq<char>) -> Seq<Seq<char>> {
    spec_names(spec_split(spec_without_remarks(text), ','))
}

/// A text in which each remark in parentheses is replaced by a comma.
pub fn without_remarks(text: &str) -> (r: String)
    ensures
        r@ == spec_without_remarks(text@),
{
    let chars = to_chars(text);
    let mut out: Vec<char> = Vec::new();
    let mut i: usize = 0;
    assert(text@.skip(0) =~= text@);
    while i < chars.len()
        invariant
            i <= chars.len(),
            chars@ == text@,
            spec_without_remarks(text@) == out@ + spec_without_remarks(text@.skip(i as int)),
        decreases chars.len() - i,
    {
        let ghost rest = text@.skip(i as int);
        let close = if chars[i] == '(' {
            find_char(&chars, ')', i + 1)
        } else {
            chars.len()
        };
        proof {
            if chars@[i as int] == '(' {
                lemma_find_in_rest(text@, ')', i + 1);
                assert(text@.skip(i + 1) =~= rest.skip(1));
                lemma_find_in_rest(rest, ')', 1);
                crate::text::lemma_find_from(rest, ')', 1);
            }
        }
        if close < chars.len() {
            out.push(',');
            proof {
                assert(rest.skip(close - i + 1) =~= text@.skip(close + 1));
            }
            i = close + 1;
        } else {
            out.push(chars[i]);
            proof {
                assert(rest.skip(1) =~= text@.skip(i + 1));
            }
            i = i + 1;
        }
    }
    string_from_chars(&out)
}

/// The names in a list that is separated by commas.
pub fn parse_name_list(text: &str) -> (r: Vec<String>)
    ensures
        r.deep_view() == spec_parse_name_list(text@),
{
    let flat = without_remarks(text);
    let pieces = split(flat.as_str(), ',');
    let ghost all = pieces.deep_view();
    let mut names: Vec<String> = Vec::new();
    let mut i: usize = 0;
    while i < pieces.len()
        invariant
            i <= pieces.len(),
            all == pieces.deep_view(),
            names.deep_view() == spec_names(all.take(i as int)),
        decreases pieces.len() - i,
    {
        proof {
            assert(all.take(i + 1).drop_last() =~= all.take(i as int));
        }
        let name = trim(pieces[i].as_str());
        if name.as_str().unicode_len() > 0 {
            names.push(name);
        }
        i = i + 1;
    }
    proof {
        assert(all.take(pieces@.len() as int) =~= all);
    }
    names
}

/// What is known of the trunk base of a stack before the store is asked.
#[derive(Debug, Clone, Copy)]
pub enum MasterBase {
    /// There is no commit to work on.
    NoCommits,
    /// The stack is a range, and its trunk base is the parent of its first
    /// commit.
    Known(Oid),
    /// One commit was named, and its trunk base is a merge base of this
    /// commit and the tip of the trunk.
    MergeBaseOf(Oid),
}

/// What is known of the trunk base of the stack `commits`.
pub fn master_base(commits: &Vec<PreparedCommit>, use_range_mode: bool) -> (r: MasterBase)
    ensures
        commits@.len() == 0 ==> r is NoCommits,
        commits@.len() > 0 && use_range_mode ==> r == MasterBase::Known(commits@[0].parent_oid),
        commits@.len() > 0 && !use_range_mode ==> r == MasterBase::MergeBaseOf(commits@[0].oid),
{
    if commits.len() == 0 {
        MasterBase::NoCommits
    } else if use_range_mode {
        MasterBase::Known(commits[0].parent_oid)
    } else {
        MasterBase::MergeBaseOf(commits[0].oid)
    }
}

/// What is said of a commit that has no ancestor on the trunk.
pub open spec fn no_trunk_base_message() -> Seq<char> {
    "The commit has no ancestor on the trunk"@
}

/// The trunk commit that a commit is based on, which has to be there: a
/// commit without an ancestor on the trunk cannot be worked on.
pub fn trunk_base(found: Option<Oid>) -> (r: Result<Oid>)
    ensures
        r is Ok <==> found is Some,
        r matches Ok(oid) ==> Some(oid) == found,
        r matches Err(e) ==> e@.kind == ErrorKind::Backend && e@.messages == seq![
            no_trunk_base_message(),
        ],
{
    match found {
        Some(oid) => Ok(oid),
        None => Err(
            SprError::new(
                ErrorKind::Backend,
                String::from_str("The commit has no ancestor on the trunk"),
            ),
        ),
    }
}

/// Whether the messages of local commits are written back at the end of a
/// pass: where the pass has changed the message of a commit.
pub fn must_write_back(commits: &Vec<PreparedCommit>) -> (r: bool)
    ensures
        r == exists|i: int| 0 <= i < commits@.len() && (#[trigger] commits@[i]).message_changed,
{
    let mut i: usize = 0;
    while i < commits.len()
        invariant
            i <= commits.len(),
            forall|j: int| 0 <= j < i ==> !(#[trigger] commits@[j]).message_changed,
        decreases commits.len() - i,
    {
        if commits[i].message_changed {
            return true;
        }
        i = i + 1;
    }
    false
}

/// Whether the pass goes on to the next commit: it stops at the first commit
/// that failed.
pub fn goes_on(result: &Result<()>) -> (r: bool)
    ensures
        r == (*result is Ok),
{
    result.is_ok()
}

/// The outcome of a pass: the outcome of the work on the commits and, beside
/// it, the outcome of writing the changed messages back, which is tried
/// whatever came before.
pub fn conclude(result: Result<()>, written_back: Result<()>) -> (r: Result<()>)
    ensures
        r is Ok <==> result is Ok && written_back is Ok,
        (result is Ok && written_back is Err) ==> r == written_back,
        (result is Err && written_back is Ok) ==> r == result,
        (result is Err && written_back is Err) ==> {
            &&& r is Err
            &&& r->Err_0@.kind == result->Err_0@.kind
            &&& r->Err_0@.messages == result->Err_0@.messages + written_back->Err_0@.messages
        },
{
    let mut result = result;
    crate::error::add_error(&mut result, written_back);
    result
}

} // verus!
