//! The commits of the local stack, as the engine works on them.

use crate::config::Config;
use crate::config::spec_parse_pull_request_field;
use crate::config::spec_pull_request_url;
use crate::error::ErrorKind;
use crate::error::Result;
use crate::error::SprError;
use crate::message::MessageSection;
use crate::message::MessageSectionsMap;
use crate::oid::Oid;
use vstd::prelude::*;

verus! {

/// A commit as the object store gives it, before its message is cut into
/// sections.
#[derive(Debug)]
pub struct UnparsedCommit {
    pub oid: Oid,
    /// The short form of the identity, for display.
    pub short_id: String,
    /// The one parent of the commit.
    pub parent_oid: Oid,
    /// The text of the commit message.
    pub message: String,
}

/// One local commit of the stack during a pass.
///
/// `oid` is replaced where the pass rewrites the commit; the record is dropped
/// when the pass ends.
#[derive(Debug)]
pub struct PreparedCommit {
    pub oid: Oid,
    pub short_id: String,
    pub parent_oid: Oid,
    pub message: MessageSectionsMap,
    pub pull_request_number: Option<u64>,
    /// Whether the pass changed the message, so that it has to be written
    /// back to the local commit.
    pub message_changed: bool,
}

/// What is said of a commit that has no parent or several.
pub open spec fn parent_count_message() -> Seq<char> {
    "Parent commit count != 1"@
}

/// The one parent of a commit of the stack. A commit with no parent or with
/// several is no part of a stack, and is refused.
pub fn single_parent(parents: &Vec<Oid>) -> (r: Result<Oid>)
    ensures
        r is Ok <==> parents@.len() == 1,
        r matches Ok(parent) ==> parent == parents@[0],
        r matches Err(e) ==> e@.kind == ErrorKind::Validation && e@.messages
            == seq![parent_count_message()],
{
    if parents.len() != 1 {
        return Err(
            SprError::new(ErrorKind::Validation, String::from_str("Parent commit count != 1")),
        );
    }
    Ok(parents[0])
}

/// What is said of commits that are no line.
pub open spec fn no_line_message() -> Seq<char> {
    "The commits are not a line of commits, each the parent of the next"@
}

/// Whether the commits are a line, oldest first: each commit but the first
/// has the commit before it for its parent.
pub open spec fn is_line(commits: Seq<UnparsedCommit>) -> bool {
    forall|i: int|
        0 <= i < commits.len() - 1 ==> (#[trigger] commits[i + 1]).parent_oid@ == commits[i].oid@
}

/// A list the other way round.
pub open spec fn reversed<T>(list: Seq<T>) -> Seq<T> {
    Seq::new(list.len(), |i: int| list[list.len() - 1 - i])
}

/// Whether the commits are a line, oldest first.
pub fn check_line(commits: &Vec<UnparsedCommit>) -> (r: bool)
    ensures
        r == is_line(commits@),
{
    let mut i: usize = 1;
    while i < commits.len()
        invariant
            1 <= i,
            forall|k: int|
                0 <= k < i - 1 && k < commits@.len() - 1 ==> (#[trigger] commits@[k
                    + 1]).parent_oid@ == commits@[k].oid@,
        decreases commits.len() - i,
    {
        if !(commits[i].parent_oid == commits[i - 1].oid) {
            assert(commits@[(i - 1) + 1].parent_oid@ != commits@[i - 1].oid@);
            return false;
        }
        i = i + 1;
    }
    true
}

/// Whether the commits are a line, newest first.
pub fn check_line_backwards(commits: &Vec<UnparsedCommit>) -> (r: bool)
    ensures
        r == is_line(reversed(commits@)),
{
    let ghost n = commits@.len() as int;
    let ghost back = reversed(commits@);
    let mut i: usize = 1;
    while i < commits.len()
        invariant
            1 <= i,
            n == commits@.len(),
            back == reversed(commits@),
            forall|k: int|
                0 <= k < i - 1 && k < n - 1 ==> (#[trigger] commits@[k]).parent_oid@ == commits@[k
                    + 1].oid@,
        decreases commits.len() - i,
    {
        if !(commits[i - 1].parent_oid == commits[i].oid) {
            proof {
                let k = n - 1 - i;
                assert(back[k + 1] == commits@[i - 1]);
                assert(back[k] == commits@[i as int]);
            }
            return false;
        }
        i = i + 1;
    }
    proof {
        assert forall|k: int| 0 <= k < back.len() - 1 implies (#[trigger] back[k + 1]).parent_oid@
            == back[k].oid@ by {
            let m = n - 2 - k;
            assert(back[k + 1] == commits@[m]);
            assert(back[k] == commits@[m + 1]);
        }
    }
    true
}

/// The commits of a line with the oldest first. A list that is a line is
/// given back as it is, and one that is a line when read from its end is
/// turned round. Commits that are no line either way are refused.
pub fn oldest_first(commits: Vec<UnparsedCommit>) -> (r: Result<Vec<UnparsedCommit>>)
    ensures
        r is Ok <==> is_line(commits@) || is_line(reversed(commits@)),
        r matches Ok(line) ==> is_line(line@) && line@ == (if is_line(commits@) {
            commits@
        } else {
            reversed(commits@)
        }),
        r matches Err(e) ==> e@.kind == ErrorKind::Validation && e@.messages == seq![
            no_line_message(),
        ],
{
    if check_line(&commits) {
        return Ok(commits);
    }
    if !check_line_backwards(&commits) {
        return Err(
            SprError::new(
                ErrorKind::Validation,
                String::from_str(
                    "The commits are not a line of commits, each the parent of the next",
                ),
            ),
        );
    }
    let ghost original = commits@;
    let mut rest = commits;
    let mut line: Vec<UnparsedCommit> = Vec::new();
    while rest.len() > 0
        invariant
            rest@.len() + line@.len() == original.len(),
            rest@ == original.take(rest@.len() as int),
            forall|k: int|
                0 <= k < line@.len() ==> #[trigger] line@[k] == original[original.len() - 1 - k],
        decreases rest.len(),
    {
        let ghost before = rest@;
        match rest.pop() {
            Some(commit) => {
                line.push(commit);
                assert(rest@ =~= original.take(rest@.len() as int));
            },
            None => {},
        }
    }
    assert(line@ =~= reversed(original));
    Ok(line)
}

/// The sections of a message once its reference to a pull request is brought
/// to the canonical form: the address of the pull request where a number was
/// read from the message, and no such section where none was.
pub open spec fn spec_normalized_message(
    message: Map<MessageSection, Seq<char>>,
    pull_request_number: Option<u64>,
    owner: Seq<char>,
    repo: Seq<char>,
) -> Map<MessageSection, Seq<char>> {
    match pull_request_number {
        Some(number) => message.insert(
            MessageSection::PullRequest,
            spec_pull_request_url(owner, repo, number),
        ),
        None => message.remove(MessageSection::PullRequest),
    }
}

/// The number of the pull request that the message of a commit refers to,
/// if it refers to one.
pub open spec fn spec_message_reference(
    message: Map<MessageSection, Seq<char>>,
    owner: Seq<char>,
    repo: Seq<char>,
) -> Option<u64> {
    if message.contains_key(MessageSection::PullRequest) {
        spec_parse_pull_request_field(message[MessageSection::PullRequest], owner, repo)
    } else {
        None
    }
}

impl PreparedCommit {
    /// The record of a commit whose message has been cut into the sections
    /// `message`.
    ///
    /// The number of the pull request is read from the section that refers
    /// to it, and the section is brought to the canonical form: the address of
    /// the pull request where a number was read, and no section where none
    /// was.
    pub fn new(commit: UnparsedCommit, message: MessageSectionsMap, config: &Config) -> (r:
        PreparedCommit)
        ensures
            r.oid == commit.oid,
            r.short_id@ == commit.short_id@,
            r.parent_oid == commit.parent_oid,
            r.pull_request_number == spec_message_reference(message@, config.owner@, config.repo@),
            !r.message_changed,
            r.message@ == spec_normalized_message(
                message@,
                r.pull_request_number,
                config.owner@,
                config.repo@,
            ),
    {
        let mut message = message;
        let pull_request_number = match message.get(MessageSection::PullRequest) {
            Some(text) => config.parse_pull_request_field(text.as_str()),
            None => None,
        };
        match pull_request_number {
            Some(number) => {
                message.insert(MessageSection::PullRequest, config.pull_request_url(number));
            },
            None => {
                message.remove(MessageSection::PullRequest);
            },
        }
        PreparedCommit {
            oid: commit.oid,
            short_id: commit.short_id,
            parent_oid: commit.parent_oid,
            message,
            pull_request_number,
            message_changed: false,
        }
    }

    /// Reading a record again changes nothing: the sections of a record, taken
    /// for the sections of a message, give the same number and the same
    /// sections.
    pub proof fn lemma_new_is_idempotent(
        message: Map<MessageSection, Seq<char>>,
        owner: Seq<char>,
        repo: Seq<char>,
    )
        ensures
            ({
                let number = spec_message_reference(message, owner, repo);
                let normal = spec_normalized_message(message, number, owner, repo);
                spec_message_reference(normal, owner, repo) == number && spec_normalized_message(
                    normal,
                    number,
                    owner,
                    repo,
                ) == normal
            }),
    {
        match spec_message_reference(message, owner, repo) {
            Some(n) => {
                crate::config::lemma_pull_request_url_is_read_back(owner, repo, n);
            },
            None => {},
        }
    }
}

/// The numbers of the pull requests of a stack, one entry for each commit,
/// in the order of the stack.
pub fn pull_request_numbers(commits: &Vec<PreparedCommit>) -> (r: Vec<Option<u64>>)
    ensures
        r@.len() == commits@.len(),
        forall|i: int| 0 <= i < r@.len() ==> r@[i] == commits@[i].pull_request_number,
{
    let mut numbers: Vec<Option<u64>> = Vec::new();
    let mut i: usize = 0;
    while i < commits.len()
        invariant
            i <= commits.len(),
            numbers@.len() == i,
            forall|j: int| 0 <= j < i ==> numbers@[j] == commits@[j].pull_request_number,
        decreases commits.len() - i,
    {
        numbers.push(commits[i].pull_request_number);
        i = i + 1;
    }
    numbers
}

} // verus!
