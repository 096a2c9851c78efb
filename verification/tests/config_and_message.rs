use spr::commit::PreparedCommit;
use spr::commit::pull_request_numbers;
use spr::commit::single_parent;
use spr::commit::UnparsedCommit;
use spr::config::Config;
use spr::error::add_error;
use spr::error::ErrorKind;
use spr::error::SprError;
use spr::github::GitHubBranch;
use spr::github::PullRequest;
use spr::github::PullRequestState;
use spr::github::PullRequestUpdate;
use spr::message::MessageSection;
use spr::message::MessageSectionsMap;
use spr::oid::Oid;

fn config() -> Config {
    Config::new(
        "test_owner".into(),
        "test_repo".into(),
        "origin".into(),
        "main".into(),
        "spr/test/".into(),
        true,
        false,
    )
}

#[test]
fn settings_keep_what_they_are_made_of() {
    let config = config();
    assert_eq!(config.owner, "test_owner");
    assert_eq!(config.repo, "test_repo");
    assert_eq!(config.remote_name, "origin");
    assert_eq!(config.branch_prefix, "spr/test/");
    assert!(config.require_approval);
    assert!(!config.require_test_plan);
    assert_eq!(config.master_ref.branch_name(), "main");
    assert_eq!(config.master_ref.on_github(), "refs/heads/main");
    assert_eq!(config.master_ref.local(), "refs/remotes/origin/main");
    assert!(config.master_ref.is_master_branch());
}

#[test]
fn branches_of_the_remote() {
    let config = config();
    let branch = config.new_github_branch("spr/test/a-title");
    assert_eq!(branch.branch_name(), "spr/test/a-title");
    assert_eq!(branch.on_github(), "refs/heads/spr/test/a-title");
    assert_eq!(branch.local(), "refs/remotes/origin/spr/test/a-title");
    assert!(!branch.is_master_branch());
    assert!(config.new_github_branch("main").is_master_branch());
    let other = GitHubBranch::new_from_branch_name("x", "upstream", "x");
    assert_eq!(other.local(), "refs/remotes/upstream/x");
    assert!(other.is_master_branch());
    let copy = other.duplicate();
    assert_eq!(copy.branch_name(), "x");
    assert_eq!(copy.on_github(), "refs/heads/x");
    assert!(copy.is_master_branch());
}

#[test]
fn address_of_a_pull_request() {
    let config = config();
    assert_eq!(
        config.pull_request_url(123),
        "https://github.com/test_owner/test_repo/pull/123"
    );
    assert_eq!(
        config.pull_request_url(0),
        "https://github.com/test_owner/test_repo/pull/0"
    );
    assert_eq!(
        config.pull_request_url(18446744073709551615),
        "https://github.com/test_owner/test_repo/pull/18446744073709551615"
    );
    assert_eq!(
        config.pull_request_url(1000),
        "https://github.com/test_owner/test_repo/pull/1000"
    );
}

#[test]
fn reference_to_a_pull_request_is_read() {
    let config = config();
    let read = |text: &str| config.parse_pull_request_field(text);
    assert_eq!(read("123"), Some(123));
    assert_eq!(read("  123\n"), Some(123));
    assert_eq!(read("#123"), Some(123));
    assert_eq!(read(" # 123 "), Some(123));
    assert_eq!(read("007"), Some(7));
    assert_eq!(read("0"), Some(0));
    assert_eq!(read("18446744073709551615"), Some(18446744073709551615));
    assert_eq!(
        read("https://github.com/test_owner/test_repo/pull/123"),
        Some(123)
    );
    assert_eq!(
        read("  http://github.com/test_owner/test_repo/pull/45/files  "),
        Some(45)
    );
    assert_eq!(
        read("https://github.com/test_owner/test_repo/pull/45?diff=split"),
        Some(45)
    );
    assert_eq!(
        read("https://github.com/test_owner/test_repo/pull/45#discussion"),
        Some(45)
    );
    for number in [0u64, 9, 10, 99, 100, 12345678901234567890, u64::MAX] {
        assert_eq!(read(&config.pull_request_url(number)), Some(number));
    }
}

#[test]
fn what_is_no_reference_to_a_pull_request() {
    let config = config();
    let read = |text: &str| config.parse_pull_request_field(text);
    assert_eq!(read(""), None);
    assert_eq!(read("   "), None);
    assert_eq!(read("#"), None);
    assert_eq!(read("##1"), None);
    assert_eq!(read("12a"), None);
    assert_eq!(read("-12"), None);
    assert_eq!(read("1 2"), None);
    assert_eq!(read("18446744073709551616"), None);
    assert_eq!(read("99999999999999999999999999"), None);
    assert_eq!(read("https://github.com/other/test_repo/pull/1"), None);
    assert_eq!(read("https://github.com/test_owner/other/pull/1"), None);
    assert_eq!(read("https://github.com/test_owner/test_repo/pull/"), None);
    assert_eq!(read("https://github.com/test_owner/test_repo/pull/1x"), None);
    assert_eq!(read("https://github.com/test_owner/test_repo/issues/1"), None);
    assert_eq!(read("ftp://github.com/test_owner/test_repo/pull/1"), None);
    assert_eq!(read("github.com/test_owner/test_repo/pull/1"), None);
    assert_eq!(
        read("https://github.com/test_owner/test_repo/pull/18446744073709551616"),
        None
    );
}

#[test]
fn names_of_generated_branches() {
    let config = config();
    let taken = |names: &[&str]| -> Vec<String> {
        names
            .iter()
            .map(|n| format!("refs/remotes/origin/{}", n))
            .collect()
    };
    assert_eq!(
        config.find_unused_branch_name(&vec![], "a-title").unwrap(),
        "spr/test/a-title"
    );
    assert_eq!(
        config
            .find_unused_branch_name(&taken(&["spr/test/a-title"]), "a-title")
            .unwrap(),
        "spr/test/a-title-1"
    );
    assert_eq!(
        config
            .find_unused_branch_name(
                &taken(&["spr/test/a-title-2", "spr/test/a-title", "spr/test/a-title-1"]),
                "a-title"
            )
            .unwrap(),
        "spr/test/a-title-3"
    );
    // A local branch of that name takes nothing.
    assert_eq!(
        config
            .find_unused_branch_name(&vec!["refs/heads/spr/test/a-title".to_string()], "a-title")
            .unwrap(),
        "spr/test/a-title"
    );
    assert_eq!(config.base_branch_slug("a-title"), "main.a-title");
}

#[test]
fn sections_of_a_message() {
    let mut message = MessageSectionsMap::new();
    assert!(message.get(MessageSection::Title).is_none());
    assert!(!message.contains_key(MessageSection::Title));
    message.insert(MessageSection::Title, "A title".to_string());
    message.insert(MessageSection::Reviewers, "a, b".to_string());
    message.insert(MessageSection::Title, "Another title".to_string());
    assert_eq!(
        message.get(MessageSection::Title),
        Some(&"Another title".to_string())
    );
    assert_eq!(message.get(MessageSection::Reviewers), Some(&"a, b".to_string()));
    assert!(message.get(MessageSection::PullRequest).is_none());
    assert!(message.get(MessageSection::Description).is_none());
    message.remove(MessageSection::Title);
    assert!(message.get(MessageSection::Title).is_none());
    assert!(message.contains_key(MessageSection::Reviewers));
    message.remove(MessageSection::Title);
    for section in [
        MessageSection::Title,
        MessageSection::Description,
        MessageSection::TestPlan,
        MessageSection::Reviewers,
        MessageSection::ReviewedBy,
        MessageSection::PullRequest,
    ] {
        message.insert(section, format!("{:?}", section));
        assert_eq!(message.get(section), Some(&format!("{:?}", section)));
        message.remove(section);
        assert!(!message.contains_key(section));
    }
}

fn unparsed() -> UnparsedCommit {
    UnparsedCommit {
        oid: Oid::from_bytes([1; 20]),
        short_id: "0101010".to_string(),
        parent_oid: Oid::from_bytes([2; 20]),
        message: "A title".to_string(),
    }
}

#[test]
fn reference_in_a_message_is_brought_to_the_canonical_form() {
    let config = config();
    let mut message = MessageSectionsMap::new();
    message.insert(MessageSection::Title, "A title".to_string());
    message.insert(MessageSection::PullRequest, " #42 ".to_string());
    let commit = PreparedCommit::new(unparsed(), message, &config);
    assert_eq!(commit.oid, Oid::from_bytes([1; 20]));
    assert_eq!(commit.parent_oid, Oid::from_bytes([2; 20]));
    assert_eq!(commit.short_id, "0101010");
    assert_eq!(commit.pull_request_number, Some(42));
    assert!(!commit.message_changed);
    assert_eq!(
        commit.message.get(MessageSection::PullRequest),
        Some(&"https://github.com/test_owner/test_repo/pull/42".to_string())
    );
    assert_eq!(commit.message.get(MessageSection::Title), Some(&"A title".to_string()));

    // Reading the record again changes nothing.
    let again = PreparedCommit::new(unparsed(), commit.message, &config);
    assert_eq!(again.pull_request_number, Some(42));
    assert_eq!(
        again.message.get(MessageSection::PullRequest),
        Some(&"https://github.com/test_owner/test_repo/pull/42".to_string())
    );
}

#[test]
fn reference_that_cannot_be_read_is_taken_out() {
    let config = config();
    let mut message = MessageSectionsMap::new();
    message.insert(MessageSection::Title, "A title".to_string());
    message.insert(
        MessageSection::PullRequest,
        "https://example.com/pull/42".to_string(),
    );
    let commit = PreparedCommit::new(unparsed(), message, &config);
    assert_eq!(commit.pull_request_number, None);
    assert!(commit.message.get(MessageSection::PullRequest).is_none());
    assert_eq!(commit.message.get(MessageSection::Title), Some(&"A title".to_string()));

    let mut message = MessageSectionsMap::new();
    message.insert(MessageSection::Title, "A title".to_string());
    let commit = PreparedCommit::new(unparsed(), message, &config);
    assert_eq!(commit.pull_request_number, None);
    assert!(commit.message.get(MessageSection::PullRequest).is_none());
}

#[test]
fn one_parent_and_the_numbers_of_a_stack() {
    let a = Oid::from_bytes([1; 20]);
    let b = Oid::from_bytes([2; 20]);
    assert_eq!(single_parent(&vec![a]).unwrap(), a);
    for parents in [vec![], vec![a, b], vec![a, a, a]] {
        let failure = single_parent(&parents).unwrap_err();
        assert_eq!(failure.kind(), ErrorKind::Validation);
        assert_eq!(failure.messages(), &vec!["Parent commit count != 1".to_string()]);
    }
    let config = config();
    let mut with_number = MessageSectionsMap::new();
    with_number.insert(MessageSection::PullRequest, "5".to_string());
    let commits = vec![
        PreparedCommit::new(unparsed(), MessageSectionsMap::new(), &config),
        PreparedCommit::new(unparsed(), with_number, &config),
    ];
    assert_eq!(pull_request_numbers(&commits), vec![None, Some(5)]);
    assert_eq!(pull_request_numbers(&vec![]), vec![]);
}

#[test]
fn failures_and_their_chains() {
    let failure = SprError::new(ErrorKind::RemoteCommunication, "cause".to_string());
    assert_eq!(failure.kind(), ErrorKind::RemoteCommunication);
    assert_eq!(failure.messages(), &vec!["cause".to_string()]);
    assert_eq!(failure.to_string(), "cause");
    let failure = failure.context("git push failed".to_string());
    assert_eq!(
        failure.messages(),
        &vec!["cause".to_string(), "git push failed".to_string()]
    );
    assert_eq!(failure.to_string(), "git push failed");
    let failure = failure.reword("other words".to_string());
    assert_eq!(
        failure.messages(),
        &vec!["cause".to_string(), "other words".to_string()]
    );
    assert_eq!(failure.kind(), ErrorKind::RemoteCommunication);
}

#[test]
fn a_second_failure_is_added_to_the_first() {
    let mut result: Result<(), SprError> = Ok(());
    add_error(&mut result, Ok(()));
    assert!(result.is_ok());
    add_error(
        &mut result,
        Err(SprError::new(ErrorKind::UserAbort, "first".to_string())),
    );
    add_error(&mut result, Ok(()));
    add_error(
        &mut result,
        Err(SprError::new(ErrorKind::Backend, "second".to_string()).context("third".to_string())),
    );
    let failure = result.unwrap_err();
    assert_eq!(failure.kind(), ErrorKind::UserAbort);
    assert_eq!(
        failure.messages(),
        &vec!["first".to_string(), "second".to_string(), "third".to_string()]
    );
}

fn shown(title: Option<&str>, body: Option<&str>) -> PullRequest {
    PullRequest {
        number: 1,
        state: PullRequestState::Open,
        title: title.map(String::from),
        body: body.map(String::from),
        head: GitHubBranch::new_from_branch_name("head", "origin", "main"),
        head_oid: Oid::from_bytes([1; 20]),
        base: GitHubBranch::new_from_branch_name("main", "origin", "main"),
        base_oid: Oid::from_bytes([2; 20]),
    }
}

#[test]
fn update_holds_only_what_differs() {
    let mut update = PullRequestUpdate::new();
    assert!(update.is_empty());
    update.update_message(
        &shown(Some("Title"), Some("Body")),
        Some(&"Title".to_string()),
        &"Body".to_string(),
    );
    assert!(update.is_empty());
    update.update_message(
        &shown(Some("Title"), Some("Body")),
        Some(&"New title".to_string()),
        &"Body".to_string(),
    );
    assert_eq!(update.title, Some("New title".to_string()));
    assert_eq!(update.body, None);
    assert!(!update.is_empty());

    let mut update = PullRequestUpdate::new();
    update.update_message(&shown(Some("Title"), None), None, &"Body".to_string());
    assert_eq!(update.title, None);
    assert_eq!(update.body, Some("Body".to_string()));

    let mut update = PullRequestUpdate::new();
    update.base = Some("base".to_string());
    update.update_message(
        &shown(None, Some("Old")),
        Some(&"Title".to_string()),
        &"New".to_string(),
    );
    assert_eq!(update.title, Some("Title".to_string()));
    assert_eq!(update.body, Some("New".to_string()));
    assert_eq!(update.base, Some("base".to_string()));
    assert!(!update.is_empty());
}
