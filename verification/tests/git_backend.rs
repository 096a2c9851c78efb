use spr::commit::PreparedCommit;
use spr::config::Config;
use spr::error::ErrorKind;
use spr::git::Git;
use spr::git::JujutsuRepo;
use spr::git::Rewrite;
use spr::github::GitHubBranch;
use spr::message::MessageSection;
use spr::message::MessageSectionsMap;
use spr::oid::Oid;
use tempfile::TempDir;

fn create_test_config() -> Config {
    Config::new(
        "test_owner".into(),
        "test_repo".into(),
        "origin".into(),
        "main".into(),
        "spr/test/".into(),
        false,
        false,
    )
}

fn create_test_git_repo() -> (TempDir, git2::Repository) {
    let temp_dir = TempDir::new().expect("Failed to create temp directory");
    let repo = git2::Repository::init(temp_dir.path()).expect("Failed to init git repo");

    let signature = git2::Signature::now("Test User", "test@example.com")
        .expect("Failed to create signature");
    let tree_id = {
        let mut index = repo.index().expect("Failed to get index");
        index.write_tree().expect("Failed to write tree")
    };
    let tree = repo.find_tree(tree_id).expect("Failed to find tree");

    repo.commit(
        Some("HEAD"),
        &signature,
        &signature,
        "Initial commit",
        &tree,
        &[],
    )
    .expect("Failed to create initial commit");

    drop(tree);
    (temp_dir, repo)
}

fn create_test_commit(repo: &git2::Repository, message: &str, content: &str) -> git2::Oid {
    let signature = git2::Signature::now("Test User", "test@example.com")
        .expect("Failed to create signature");

    let blob = repo.blob(content.as_bytes()).expect("Failed to write test file");
    let mut builder = repo.treebuilder(None).expect("Failed to get tree builder");
    builder
        .insert("test.txt", blob, 0o100644)
        .expect("Failed to add file to tree");
    let tree_id = builder.write().expect("Failed to write tree");
    let tree = repo.find_tree(tree_id).expect("Failed to find tree");

    let parent_commit = repo
        .head()
        .expect("Failed to get HEAD")
        .peel_to_commit()
        .expect("Failed to peel to commit");

    repo.commit(
        Some("HEAD"),
        &signature,
        &signature,
        message,
        &tree,
        &[&parent_commit],
    )
    .expect("Failed to create commit")
}

fn to_oid(id: git2::Oid) -> Oid {
    Oid::from_bytes(<[u8; 20]>::try_from(id.as_bytes()).unwrap())
}

fn to_git(oid: Oid) -> git2::Oid {
    git2::Oid::from_bytes(oid.as_bytes()).unwrap()
}

fn new_git(repo: git2::Repository) -> Git {
    let dot_git = repo.path().to_string_lossy().into_owned();
    let dot_git = dot_git.trim_end_matches('/').to_string();
    // No companion tool is at hand: it names no root.
    let jj = JujutsuRepo::from_git_path(&dot_git, "jj", "");
    Git::new(repo, jj).expect("Failed to create Git instance")
}

fn head_of(repo: &git2::Repository) -> git2::Oid {
    repo.head().unwrap().peel_to_commit().unwrap().id()
}

fn record(oid: git2::Oid, parent: git2::Oid, title: &str) -> PreparedCommit {
    let mut message = MessageSectionsMap::new();
    message.insert(MessageSection::Title, title.to_string());
    PreparedCommit {
        oid: to_oid(oid),
        short_id: to_oid(oid).short_id(),
        parent_oid: to_oid(parent),
        message,
        pull_request_number: None,
        message_changed: false,
    }
}

#[test]
fn test_jujutsu_integration() {
    let config = create_test_config();
    assert_eq!(config.owner, "test_owner");
    assert_eq!(config.remote_name, "origin");
}

#[test]
fn test_lock_and_get_prepared_commits_for_revision_with_no_revision() {
    let (_temp_dir, repo) = create_test_git_repo();
    let git = new_git(repo);
    let config = create_test_config();

    let result =
        git.lock_and_get_prepared_commits_for_revision(config.master_ref.local(), None, None);

    match result {
        Ok(_) => {}
        Err(_) => {}
    }
}

#[test]
fn test_lock_and_get_prepared_commits_for_revision_without_jujutsu() {
    let (_temp_dir, repo) = create_test_git_repo();
    let git = new_git(repo);
    let config = create_test_config();

    let result = git.lock_and_get_prepared_commits_for_revision(
        config.master_ref.local(),
        Some("test_revision"),
        None,
    );

    assert!(result.is_err());
    let error_msg = result.unwrap_err().to_string();
    assert!(error_msg.contains("--revision option is only supported in Jujutsu repositories"));
}

#[test]
fn test_git_new_without_jujutsu() {
    let (_temp_dir, repo) = create_test_git_repo();
    let git = new_git(repo);

    assert!(git.jj.is_none());
}

#[test]
fn test_lock_and_get_commit_oids() {
    let (_temp_dir, repo) = create_test_git_repo();

    create_test_commit(&repo, "Test commit", "test content");

    let git = new_git(repo);

    let result = git.lock_and_get_commit_oids("refs/heads/master");

    match result {
        Ok(_oids) => {}
        Err(_) => {}
    }
}

#[test]
fn test_prepared_commit_creation() {
    let (_temp_dir, repo) = create_test_git_repo();
    let config = create_test_config();

    let commit_message =
        "Test commit\n\nPull Request: https://github.com/test_owner/test_repo/pull/123";
    let commit_oid = create_test_commit(&repo, commit_message, "test content");

    let git = new_git(repo);

    let result = git.lock_and_prepare_commit(to_oid(commit_oid));
    assert!(result.is_ok());

    let read = result.unwrap();
    assert_eq!(read.message, commit_message);
    let (title, reference) = read.message.split_once("\n\nPull Request: ").unwrap();
    let mut sections = MessageSectionsMap::new();
    sections.insert(MessageSection::Title, title.to_string());
    sections.insert(MessageSection::PullRequest, reference.to_string());
    let prepared_commit = PreparedCommit::new(read, sections, &config);
    assert_eq!(prepared_commit.oid, to_oid(commit_oid));
    assert_eq!(prepared_commit.pull_request_number, Some(123));
}

#[test]
fn commits_between_trunk_and_head_come_oldest_first() {
    let (_temp_dir, repo) = create_test_git_repo();
    let trunk = head_of(&repo);
    repo.reference("refs/remotes/origin/main", trunk, true, "test")
        .unwrap();
    let first = create_test_commit(&repo, "First", "one");
    let second = create_test_commit(&repo, "Second", "two");
    let git = new_git(repo);
    let oids = git
        .lock_and_get_commit_oids("refs/remotes/origin/main")
        .unwrap();
    assert_eq!(oids, vec![to_oid(first), to_oid(second)]);
    let commits = git
        .lock_and_get_prepared_commits("refs/remotes/origin/main")
        .unwrap();
    assert_eq!(commits.len(), 2);
    assert_eq!(commits[0].oid, to_oid(first));
    assert_eq!(commits[0].parent_oid, to_oid(trunk));
    assert_eq!(commits[0].message, "First");
    assert_eq!(commits[1].oid, to_oid(second));
    assert_eq!(commits[1].parent_oid, to_oid(first));
    assert!(first.to_string().starts_with(&commits[0].short_id));
    assert_eq!(git.lock_and_get_head().unwrap(), to_oid(second));
    assert_eq!(
        git.lock_and_resolve_reference("refs/remotes/origin/main").unwrap(),
        to_oid(trunk)
    );
}

#[test]
fn commit_without_parent_is_refused() {
    let (_temp_dir, repo) = create_test_git_repo();
    let root = head_of(&repo);
    let git = new_git(repo);
    let failure = git.lock_and_prepare_commit(to_oid(root)).unwrap_err();
    assert_eq!(failure.kind(), ErrorKind::Validation);
    assert_eq!(failure.to_string(), "Parent commit count != 1");
}

#[test]
fn commit_that_is_not_there_is_a_backend_failure() {
    let (_temp_dir, repo) = create_test_git_repo();
    let git = new_git(repo);
    let missing = Oid::from_bytes([7; 20]);
    assert_eq!(
        git.lock_and_prepare_commit(missing).unwrap_err().kind(),
        ErrorKind::Backend
    );
    assert_eq!(
        git.lock_and_get_tree_oid_for_commit(missing).unwrap_err().kind(),
        ErrorKind::Backend
    );
    let fetch = git
        .lock_and_fetch_commits_from_remote(&vec![missing], "origin")
        .unwrap();
    assert_eq!(
        fetch,
        vec![
            "fetch",
            "--no-write-fetch-head",
            "--",
            "origin",
            "0707070707070707070707070707070707070707"
        ]
    );
}

#[test]
fn commits_that_are_there_are_not_fetched() {
    let (_temp_dir, repo) = create_test_git_repo();
    let root = head_of(&repo);
    let git = new_git(repo);
    assert!(git
        .lock_and_fetch_commits_from_remote(&vec![to_oid(root)], "origin")
        .is_none());
    assert!(git.lock_and_fetch_commits_from_remote(&vec![], "origin").is_none());
}

#[test]
fn branches_are_fetched_by_their_names_on_the_service() {
    let branches: Vec<GitHubBranch> = vec![
        GitHubBranch::new_from_branch_name("one", "origin", "main"),
        GitHubBranch::new_from_branch_name("two", "origin", "main"),
    ];
    assert_eq!(
        Git::fetch_from_remote(&branches, "origin").unwrap(),
        vec![
            "fetch",
            "--no-write-fetch-head",
            "--",
            "origin",
            "refs/heads/one",
            "refs/heads/two"
        ]
    );
    assert!(Git::fetch_from_remote(&vec![], "origin").is_none());
}

#[test]
fn tree_of_a_commit_is_read_from_the_store() {
    let (_temp_dir, repo) = create_test_git_repo();
    let first = create_test_commit(&repo, "First", "one");
    let expected = repo.find_commit(first).unwrap().tree_id();
    let git = new_git(repo);
    let tree = git.lock_and_get_tree_oid_for_commit(to_oid(first)).unwrap();
    assert_eq!(to_git(tree), expected);
    assert_ne!(tree, to_oid(first));
}

#[test]
fn master_base_is_found_on_both_walks() {
    let (_temp_dir, repo) = create_test_git_repo();
    let root = head_of(&repo);
    let shared = create_test_commit(&repo, "Shared", "shared");
    let trunk1 = create_test_commit(&repo, "Trunk 1", "trunk 1");
    let trunk2 = create_test_commit(&repo, "Trunk 2", "trunk 2");
    repo.set_head_detached(shared).unwrap();
    let local1 = create_test_commit(&repo, "Local 1", "local 1");
    let local2 = create_test_commit(&repo, "Local 2", "local 2");
    let git = new_git(repo);
    assert_eq!(
        git.lock_and_find_master_base(to_oid(local2), to_oid(trunk2)).unwrap(),
        Some(to_oid(shared))
    );
    assert_eq!(
        git.lock_and_find_master_base(to_oid(local1), to_oid(trunk1)).unwrap(),
        Some(to_oid(shared))
    );
    assert_eq!(
        git.lock_and_find_master_base(to_oid(trunk2), to_oid(trunk2)).unwrap(),
        Some(to_oid(trunk2))
    );
    assert_eq!(
        git.lock_and_find_master_base(to_oid(trunk2), to_oid(root)).unwrap(),
        Some(to_oid(root))
    );
    assert_eq!(
        git.lock_and_find_master_base(to_oid(root), to_oid(local2)).unwrap(),
        Some(to_oid(root))
    );
}

#[test]
fn master_base_of_unrelated_histories_is_none() {
    let (_temp_dir, repo) = create_test_git_repo();
    let one = create_test_commit(&repo, "One", "one");
    let signature = git2::Signature::now("Test User", "test@example.com").unwrap();
    let tree = repo.find_commit(one).unwrap().tree().unwrap();
    let other_root = repo
        .commit(None, &signature, &signature, "Other root", &tree, &[])
        .unwrap();
    let other_root_commit = repo.find_commit(other_root).unwrap();
    let other = repo
        .commit(None, &signature, &signature, "Other", &tree, &[&other_root_commit])
        .unwrap();
    drop(other_root_commit);
    drop(tree);
    let git = new_git(repo);
    assert_eq!(
        git.lock_and_find_master_base(to_oid(one), to_oid(other)).unwrap(),
        None
    );
    assert_eq!(
        git.lock_and_find_master_base(to_oid(one), Oid::from_bytes([9; 20]))
            .unwrap_err()
            .kind(),
        ErrorKind::Backend
    );
}

#[test]
fn master_base_is_found_through_every_parent_of_a_merge() {
    let (_temp_dir, repo) = create_test_git_repo();
    let root = head_of(&repo);
    let left = create_test_commit(&repo, "Left", "left");
    repo.set_head_detached(root).unwrap();
    let right = create_test_commit(&repo, "Right", "right");
    let signature = git2::Signature::now("Test User", "test@example.com").unwrap();
    let tree = repo.find_commit(right).unwrap().tree().unwrap();
    let left_commit = repo.find_commit(left).unwrap();
    let right_commit = repo.find_commit(right).unwrap();
    let merge = repo
        .commit(
            None,
            &signature,
            &signature,
            "Merge",
            &tree,
            &[&left_commit, &right_commit],
        )
        .unwrap();
    drop(left_commit);
    drop(right_commit);
    drop(tree);
    let git = new_git(repo);
    // From the merge the walk goes to both parents.
    assert_eq!(
        git.lock_and_find_master_base(to_oid(merge), to_oid(left)).unwrap(),
        Some(to_oid(left))
    );
    assert_eq!(
        git.lock_and_find_master_base(to_oid(merge), to_oid(right)).unwrap(),
        Some(to_oid(right))
    );
    assert_eq!(
        git.lock_and_find_master_base(to_oid(left), to_oid(merge)).unwrap(),
        Some(to_oid(left))
    );
    assert_eq!(
        git.lock_and_find_master_base(to_oid(root), to_oid(merge)).unwrap(),
        Some(to_oid(root))
    );
}

#[test]
fn master_base_is_found_where_only_the_first_parent_meets_the_trunk() {
    let (_temp_dir, repo) = create_test_git_repo();
    let shared = create_test_commit(&repo, "Shared", "shared");
    let trunk = create_test_commit(&repo, "Trunk", "trunk");
    repo.set_head_detached(shared).unwrap();
    let local = create_test_commit(&repo, "Local", "local");
    let signature = git2::Signature::now("Test User", "test@example.com").unwrap();
    let tree = repo.find_commit(local).unwrap().tree().unwrap();
    let other_root = repo
        .commit(None, &signature, &signature, "Other root", &tree, &[])
        .unwrap();
    let local_commit = repo.find_commit(local).unwrap();
    let other_commit = repo.find_commit(other_root).unwrap();
    let merge = repo
        .commit(
            None,
            &signature,
            &signature,
            "Merge",
            &tree,
            &[&local_commit, &other_commit],
        )
        .unwrap();
    drop(local_commit);
    drop(other_commit);
    drop(tree);
    let git = new_git(repo);
    assert_eq!(
        git.lock_and_find_master_base(to_oid(merge), to_oid(trunk)).unwrap(),
        Some(to_oid(shared))
    );
    assert_eq!(
        git.lock_and_find_master_base(to_oid(trunk), to_oid(merge)).unwrap(),
        Some(to_oid(shared))
    );
    assert_eq!(
        git.lock_and_find_master_base(to_oid(other_root), to_oid(trunk)).unwrap(),
        None
    );
}

#[test]
fn derived_commit_has_the_given_tree_and_parents() {
    let (_temp_dir, repo) = create_test_git_repo();
    let root = head_of(&repo);
    let first = create_test_commit(&repo, "First", "one");
    let second = create_test_commit(&repo, "Second", "two");
    let tree = repo.find_commit(second).unwrap().tree_id();
    let mut settings = repo.config().unwrap();
    settings.set_str("user.name", "Operator").unwrap();
    settings.set_str("user.email", "operator@example.com").unwrap();
    drop(settings);
    let check = git2::Repository::open(repo.path()).unwrap();
    let git = new_git(repo);
    let derived = git
        .lock_and_create_derived_commit(
            to_oid(first),
            "  A message  \n\n\n",
            to_oid(tree),
            &vec![to_oid(root), to_oid(first)],
        )
        .unwrap();
    let commit = check.find_commit(to_git(derived)).unwrap();
    assert_eq!(commit.tree_id(), tree);
    let parents: Vec<git2::Oid> = commit.parent_ids().collect();
    assert_eq!(parents, vec![root, first]);
    assert_eq!(commit.message().unwrap(), "  A message\n");
    assert_eq!(commit.author().name().unwrap(), "Test User");
    assert_eq!(commit.author().email().unwrap(), "test@example.com");
    assert_eq!(commit.committer().name().unwrap(), "Operator");
    assert_eq!(commit.committer().email().unwrap(), "operator@example.com");
}

#[test]
fn messages_are_written_back_from_the_first_that_differs() {
    let (_temp_dir, repo) = create_test_git_repo();
    let root = head_of(&repo);
    let first = create_test_commit(&repo, "First", "one");
    let second = create_test_commit(&repo, "Second", "two");
    let third = create_test_commit(&repo, "Third", "three");
    let check = git2::Repository::open(repo.path()).unwrap();
    let git = new_git(repo);
    let mut commits = vec![
        record(first, root, "First"),
        record(second, first, "Second"),
        record(third, second, "Third"),
    ];
    let messages = vec![
        "First".to_string(),
        "Second, reworded".to_string(),
        "Third".to_string(),
    ];
    let how = git
        .lock_and_rewrite_commit_messages(&mut commits, &messages, None)
        .unwrap();
    assert_eq!(how, Rewrite::Native);
    assert_eq!(commits[0].oid, to_oid(first));
    assert_ne!(commits[1].oid, to_oid(second));
    assert_ne!(commits[2].oid, to_oid(third));
    let new_second = check.find_commit(to_git(commits[1].oid)).unwrap();
    assert_eq!(new_second.message().unwrap(), "Second, reworded");
    assert_eq!(new_second.tree_id(), check.find_commit(second).unwrap().tree_id());
    assert_eq!(new_second.parent_id(0).unwrap(), first);
    let new_third = check.find_commit(to_git(commits[2].oid)).unwrap();
    assert_eq!(new_third.message().unwrap(), "Third");
    assert_eq!(new_third.tree_id(), check.find_commit(third).unwrap().tree_id());
    assert_eq!(new_third.parent_id(0).unwrap(), to_git(commits[1].oid));
    assert_eq!(head_of(&check), to_git(commits[2].oid));
}

#[test]
fn messages_that_are_the_same_leave_the_commits_alone() {
    let (_temp_dir, repo) = create_test_git_repo();
    let root = head_of(&repo);
    let first = create_test_commit(&repo, "First", "one");
    let second = create_test_commit(&repo, "Second", "two");
    let check = git2::Repository::open(repo.path()).unwrap();
    let git = new_git(repo);
    let mut commits = vec![record(first, root, "First"), record(second, first, "Second")];
    let messages = vec!["First".to_string(), "Second".to_string()];
    git.lock_and_rewrite_commit_messages(&mut commits, &messages, None)
        .unwrap();
    assert_eq!(commits[0].oid, to_oid(first));
    assert_eq!(commits[1].oid, to_oid(second));
    assert_eq!(head_of(&check), second);

    // Past the limit a new text is not looked at.
    let messages = vec!["First".to_string(), "Second, reworded".to_string()];
    git.lock_and_rewrite_commit_messages(&mut commits, &messages, Some(1))
        .unwrap();
    assert_eq!(commits[1].oid, to_oid(second));
    assert_eq!(head_of(&check), second);

    let mut none: Vec<PreparedCommit> = vec![];
    assert_eq!(
        git.lock_and_rewrite_commit_messages(&mut none, &vec![], None).unwrap(),
        Rewrite::Native
    );
}

#[test]
fn messages_within_the_limit_are_written_and_later_commits_follow() {
    let (_temp_dir, repo) = create_test_git_repo();
    let root = head_of(&repo);
    let first = create_test_commit(&repo, "First", "one");
    let second = create_test_commit(&repo, "Second", "two");
    let check = git2::Repository::open(repo.path()).unwrap();
    let git = new_git(repo);
    let mut commits = vec![record(first, root, "First"), record(second, first, "Second")];
    let messages = vec!["First, reworded".to_string(), "Second, reworded".to_string()];
    git.lock_and_rewrite_commit_messages(&mut commits, &messages, Some(1))
        .unwrap();
    let new_first = check.find_commit(to_git(commits[0].oid)).unwrap();
    assert_eq!(new_first.message().unwrap(), "First, reworded");
    assert_eq!(new_first.parent_id(0).unwrap(), root);
    let new_second = check.find_commit(to_git(commits[1].oid)).unwrap();
    assert_eq!(new_second.message().unwrap(), "Second");
    assert_eq!(new_second.parent_id(0).unwrap(), to_git(commits[0].oid));
}

#[test]
fn rewrite_is_left_to_the_companion_tool_where_there_is_one() {
    let (_temp_dir, repo) = create_test_git_repo();
    let root = head_of(&repo);
    let first = create_test_commit(&repo, "First", "one");
    let dot_git = repo.path().to_string_lossy().into_owned();
    let dot_git = dot_git.trim_end_matches('/').to_string();
    let root_dir = dot_git.strip_suffix("/.git").unwrap().to_string();
    let jj = JujutsuRepo::from_git_path(&dot_git, "jj", &root_dir);
    assert!(jj.is_ok());
    let git = Git::new(repo, jj).unwrap();
    assert!(git.jj.is_some());
    let mut commits = vec![record(first, root, "First")];
    let messages = vec!["First, reworded".to_string()];
    assert_eq!(
        git.lock_and_rewrite_commit_messages(&mut commits, &messages, None).unwrap(),
        Rewrite::Companion
    );
    assert_eq!(commits[0].oid, to_oid(first));
}

#[test]
fn rebase_replays_the_commits_on_the_new_parent() {
    let (_temp_dir, repo) = create_test_git_repo();
    let root = head_of(&repo);
    let signature = git2::Signature::now("Test User", "test@example.com").unwrap();
    let make = |parent: git2::Oid, files: &[(&str, &str)], message: &str| -> git2::Oid {
        let mut builder = repo.treebuilder(None).unwrap();
        for (name, content) in files {
            let blob = repo.blob(content.as_bytes()).unwrap();
            builder.insert(name, blob, 0o100644).unwrap();
        }
        let tree = repo.find_tree(builder.write().unwrap()).unwrap();
        let parent = repo.find_commit(parent).unwrap();
        repo.commit(None, &signature, &signature, message, &tree, &[&parent])
            .unwrap()
    };
    let trunk = make(root, &[("trunk.txt", "trunk")], "Trunk");
    let first = make(root, &[("one.txt", "one")], "First");
    let second = make(first, &[("one.txt", "one"), ("two.txt", "two")], "Second");
    repo.reference("refs/heads/work", second, true, "test").unwrap();
    repo.set_head("refs/heads/work").unwrap();
    repo.checkout_head(Some(git2::build::CheckoutBuilder::new().force()))
        .unwrap();
    let check = git2::Repository::open(repo.path()).unwrap();
    drop(make);
    let git = new_git(repo);
    let commits = vec![record(first, root, "First"), record(second, first, "Second")];
    let new_tip = git.lock_and_rebase_commits(&commits, to_oid(trunk)).unwrap();
    let tip = check
        .find_reference("refs/heads/work")
        .unwrap()
        .peel_to_commit()
        .unwrap();
    assert_eq!(to_oid(tip.id()), new_tip);
    assert_eq!(tip.message().unwrap(), "Second");
    let tree = tip.tree().unwrap();
    assert!(tree.get_name("trunk.txt").is_some());
    assert!(tree.get_name("one.txt").is_some());
    assert!(tree.get_name("two.txt").is_some());
    let below = tip.parent(0).unwrap();
    assert_eq!(below.message().unwrap(), "First");
    assert_eq!(below.parent_id(0).unwrap(), trunk);
    assert_eq!(
        git.lock_and_rebase_commits(&vec![], to_oid(trunk)).unwrap(),
        to_oid(trunk)
    );
}

#[test]
fn rebase_with_conflicts_fails_and_moves_nothing() {
    let (_temp_dir, repo) = create_test_git_repo();
    let root = head_of(&repo);
    repo.set_head_detached(root).unwrap();
    let trunk = create_test_commit(&repo, "Trunk", "trunk");
    repo.set_head_detached(root).unwrap();
    let first = create_test_commit(&repo, "First", "one");
    repo.reference("refs/heads/work", first, true, "test").unwrap();
    repo.set_head("refs/heads/work").unwrap();
    let check = git2::Repository::open(repo.path()).unwrap();
    let git = new_git(repo);
    let commits = vec![record(first, root, "First")];
    let failure = git.lock_and_rebase_commits(&commits, to_oid(trunk)).unwrap_err();
    assert_eq!(failure.kind(), ErrorKind::Conflict);
    assert_eq!(failure.to_string(), "Rebase failed due to merge conflicts");
    assert_eq!(
        check.find_reference("refs/heads/work").unwrap().target().unwrap(),
        first
    );
}

#[test]
fn working_copy_with_changes_is_refused() {
    let (_temp_dir, repo) = create_test_git_repo();
    let clean = new_git(repo);
    assert!(clean.lock_and_check_no_uncommitted_changes().is_ok());

    let (_temp_dir, repo) = create_test_git_repo();
    // The head has a file that the index and the working copy lack.
    create_test_commit(&repo, "First", "one");
    let changed = new_git(repo);
    let failure = changed.lock_and_check_no_uncommitted_changes().unwrap_err();
    assert_eq!(failure.kind(), ErrorKind::Validation);
    assert_eq!(
        failure.to_string(),
        "There are uncommitted changes. Stash or amend them first"
    );
}

#[test]
fn reference_names_and_patch_branch_names() {
    let (_temp_dir, repo) = create_test_git_repo();
    let root = head_of(&repo);
    repo.reference("refs/heads/PR-12", root, true, "test").unwrap();
    repo.reference("refs/heads/PR-12-1", root, true, "test").unwrap();
    let git = new_git(repo);
    let names = git.lock_and_get_all_ref_names().unwrap();
    assert!(names.contains(&"refs/heads/PR-12".to_string()));
    assert!(names.contains(&"refs/heads/PR-12-1".to_string()));
    assert_eq!(git.lock_and_get_pr_patch_branch_name(12).unwrap(), "PR-12-2");
    assert_eq!(git.lock_and_get_pr_patch_branch_name(13).unwrap(), "PR-13");
    assert_eq!(git.lock_and_get_pr_patch_branch_name(0).unwrap(), "PR-0");
    assert_eq!(
        git.lock_and_get_pr_patch_branch_name(18446744073709551615).unwrap(),
        "PR-18446744073709551615"
    );
}

#[test]
fn replay_and_written_index() {
    let (_temp_dir, repo) = create_test_git_repo();
    let root = head_of(&repo);
    let first = create_test_commit(&repo, "First", "one");
    let expected = repo.find_commit(first).unwrap().tree_id();
    let git = new_git(repo);
    let index = git.lock_and_cherrypick(to_oid(first), to_oid(root)).unwrap();
    assert!(!index.has_conflicts());
    let tree = git.lock_and_write_index(index).unwrap();
    assert_eq!(to_git(tree), expected);
}

#[test]
fn object_store_beside_the_companion_tool() {
    let repo = JujutsuRepo::from_git_path("/home/me/project/.git", "jj", "/home/me/project").unwrap();
    assert_eq!(repo.cli.repo_path, "/home/me/project");
    assert_eq!(repo.cli.jj_bin, "jj");
    let at_root = JujutsuRepo::from_git_path("/.git", "/usr/bin/jj", "/").unwrap();
    assert_eq!(at_root.cli.repo_path, "/");
    assert_eq!(at_root.cli.jj_bin, "/usr/bin/jj");
    let alone = JujutsuRepo::from_git_path(".git", "jj", "").unwrap();
    assert_eq!(alone.cli.repo_path, "");

    let failure = JujutsuRepo::from_git_path("/home/me/project/git", "jj", "/home/me/project")
        .unwrap_err();
    assert_eq!(failure.kind(), ErrorKind::Backend);
    assert_eq!(
        failure.to_string(),
        "git path /home/me/project/git does not end with .git"
    );
    let failure = JujutsuRepo::from_git_path("/home/me/project.git", "jj", "/home/me")
        .unwrap_err();
    assert_eq!(
        failure.to_string(),
        "git path /home/me/project.git does not end with .git"
    );
    let failure = JujutsuRepo::from_git_path("/home/me/project/.git", "jj", "/home/me/other")
        .unwrap_err();
    assert_eq!(
        failure.to_string(),
        "git path /home/me/project/.git is not colocated with jj root /home/me/other"
    );
    assert_eq!(spr::git::repo_path_of("x"), None);
    assert_eq!(spr::git::repo_path_of("a/.git"), Some("a".to_string()));
}

#[test]
fn rebase_leaves_out_a_commit_that_changes_nothing() {
    let (_temp_dir, repo) = create_test_git_repo();
    let root = head_of(&repo);
    let first = create_test_commit(&repo, "First", "one");
    // The trunk has the same change already.
    repo.set_head_detached(root).unwrap();
    let trunk = create_test_commit(&repo, "Landed", "one");
    repo.reference("refs/heads/work", first, true, "test").unwrap();
    repo.set_head("refs/heads/work").unwrap();
    let check = git2::Repository::open(repo.path()).unwrap();
    let git = new_git(repo);
    let commits = vec![record(first, root, "First")];
    let tip = git.lock_and_rebase_commits(&commits, to_oid(trunk)).unwrap();
    assert_eq!(tip, to_oid(trunk));
    assert_eq!(
        check.find_reference("refs/heads/work").unwrap().target().unwrap(),
        trunk
    );
}

#[test]
fn commits_are_signed_where_signing_is_set_up() {
    let (_temp_dir, repo) = create_test_git_repo();
    let root = head_of(&repo);
    // A program that signs everything with the same words.
    let script = "#!/bin/sh\ncat >/dev/null\nprintf '\\n[GNUPG:] SIG_CREATED x\\n' >&2\necho SIGNED\n";
    let blob = repo.blob(script.as_bytes()).unwrap();
    let mut builder = repo.treebuilder(None).unwrap();
    builder.insert("sign", blob, 0o100755).unwrap();
    let tree = repo.find_tree(builder.write().unwrap()).unwrap();
    drop(builder);
    let signature = git2::Signature::now("Test User", "test@example.com").unwrap();
    let root_commit = repo.find_commit(root).unwrap();
    let first = repo
        .commit(Some("HEAD"), &signature, &signature, "First", &tree, &[&root_commit])
        .unwrap();
    drop(root_commit);
    let tree_id = tree.id();
    drop(tree);
    repo.checkout_head(Some(git2::build::CheckoutBuilder::new().force()))
        .unwrap();
    let program = repo.workdir().unwrap().join("sign");
    let mut settings = repo.config().unwrap();
    settings.set_bool("commit.gpgsign", true).unwrap();
    settings.set_str("gpg.program", &program.to_string_lossy()).unwrap();
    settings.set_str("user.signingkey", "key").unwrap();
    settings.set_str("user.name", "Operator").unwrap();
    settings.set_str("user.email", "operator@example.com").unwrap();
    drop(settings);
    let check = git2::Repository::open(repo.path()).unwrap();
    let git = new_git(repo);
    assert!(git.repo.sign.as_sign().is_some());
    let derived = git
        .lock_and_create_derived_commit(to_oid(first), "A message", to_oid(tree_id), &vec![to_oid(root)])
        .unwrap();
    let commit = check.find_commit(to_git(derived)).unwrap();
    assert_eq!(commit.tree_id(), tree_id);
    let parents: Vec<git2::Oid> = commit.parent_ids().collect();
    assert_eq!(parents, vec![root]);
    assert_eq!(commit.author().name().unwrap(), "Test User");
    assert_eq!(commit.committer().name().unwrap(), "Operator");
    let field = commit.header_field_bytes("gpgsig").unwrap();
    assert_eq!(field.as_str().unwrap(), "SIGNED\n");

    // A rewritten commit is signed, too, and keeps its author and the time.
    let mut commits = vec![record(first, root, "First")];
    git.lock_and_rewrite_commit_messages(&mut commits, &vec!["First, reworded".to_string()], None)
        .unwrap();
    let rewritten = check.find_commit(to_git(commits[0].oid)).unwrap();
    assert_eq!(rewritten.message().unwrap(), "First, reworded");
    assert_eq!(rewritten.tree_id(), tree_id);
    assert_eq!(rewritten.parent_id(0).unwrap(), root);
    assert_eq!(rewritten.author().name().unwrap(), "Test User");
    assert_eq!(
        rewritten.author().when().seconds(),
        check.find_commit(first).unwrap().author().when().seconds()
    );
    assert_eq!(
        rewritten.header_field_bytes("gpgsig").unwrap().as_str().unwrap(),
        "SIGNED\n"
    );
}

#[test]
fn commits_go_unsigned_where_signing_cannot_be_set_up() {
    let (_temp_dir, repo) = create_test_git_repo();
    let root = head_of(&repo);
    let first = create_test_commit(&repo, "First", "one");
    let tree = repo.find_commit(first).unwrap().tree_id();
    let mut settings = repo.config().unwrap();
    settings.set_bool("commit.gpgsign", true).unwrap();
    settings.set_str("gpg.format", "no such format").unwrap();
    drop(settings);
    let check = git2::Repository::open(repo.path()).unwrap();
    let git = new_git(repo);
    assert!(git.repo.sign.as_sign().is_none());
    assert!(matches!(git.repo.sign, spr::git::CommitSign::EnabledButError));
    let derived = git
        .lock_and_create_derived_commit(to_oid(first), "A message", to_oid(tree), &vec![to_oid(root)])
        .unwrap();
    let commit = check.find_commit(to_git(derived)).unwrap();
    assert!(commit.header_field_bytes("gpgsig").is_err());

    let (_temp_dir, repo) = create_test_git_repo();
    let mut settings = repo.config().unwrap();
    settings.set_bool("commit.gpgsign", false).unwrap();
    drop(settings);
    let git = new_git(repo);
    assert!(matches!(git.repo.sign, spr::git::CommitSign::Disabled));
}

#[test]
fn signing_that_fails_is_a_backend_failure() {
    let (_temp_dir, repo) = create_test_git_repo();
    let root = head_of(&repo);
    let first = create_test_commit(&repo, "First", "one");
    let tree = repo.find_commit(first).unwrap().tree_id();
    let mut settings = repo.config().unwrap();
    settings.set_bool("commit.gpgsign", true).unwrap();
    settings.set_str("gpg.program", "/no/such/program").unwrap();
    settings.set_str("user.signingkey", "key").unwrap();
    drop(settings);
    let git = new_git(repo);
    assert!(git.repo.sign.as_sign().is_some());
    let failure = git
        .lock_and_create_derived_commit(to_oid(first), "A message", to_oid(tree), &vec![to_oid(root)])
        .unwrap_err();
    assert_eq!(failure.kind(), ErrorKind::Backend);
}

#[test]
fn answer_of_the_store_is_handed_on() {
    let answer: Result<u64, git2::Error> = Ok(7);
    assert_eq!(spr::repo::from_store(answer).unwrap(), 7);
    let answer: Result<u64, git2::Error> = Err(git2::Error::from_str("no such object"));
    let failure = spr::repo::from_store(answer).unwrap_err();
    assert_eq!(failure.kind(), ErrorKind::Backend);
    assert_eq!(failure.messages().len(), 1);
    assert!(failure.to_string().contains("no such object"));
}

#[test]
fn missing_commits_keep_their_order() {
    let one = Oid::from_bytes([1; 20]);
    let two = Oid::from_bytes([2; 20]);
    let three = Oid::from_bytes([0xab; 20]);
    assert_eq!(
        spr::git::missing_commits(&vec![one, two, three], &vec![false, true, false]),
        vec![
            "0101010101010101010101010101010101010101",
            "abababababababababababababababababababab"
        ]
    );
    assert!(spr::git::missing_commits(&vec![one, two], &vec![true, true]).is_empty());
    assert!(spr::git::missing_commits(&vec![], &vec![]).is_empty());
}

#[test]
fn only_the_commits_that_are_missing_are_fetched() {
    let (_temp_dir, repo) = create_test_git_repo();
    let root = head_of(&repo);
    let first = create_test_commit(&repo, "First", "one");
    let git = new_git(repo);
    let fetch = git
        .lock_and_fetch_commits_from_remote(
            &vec![
                Oid::from_bytes([9; 20]),
                to_oid(root),
                Oid::from_bytes([8; 20]),
                to_oid(first),
            ],
            "upstream",
        )
        .unwrap();
    assert_eq!(
        fetch,
        vec![
            "fetch",
            "--no-write-fetch-head",
            "--",
            "upstream",
            "0909090909090909090909090909090909090909",
            "0808080808080808080808080808080808080808"
        ]
    );
}

#[test]
fn commits_are_read_in_the_order_asked_for() {
    let (_temp_dir, repo) = create_test_git_repo();
    let root = head_of(&repo);
    let first = create_test_commit(&repo, "First", "one");
    let second = create_test_commit(&repo, "Second", "two");
    let git = new_git(repo);
    let commits = git.prepare_commits(&vec![to_oid(second), to_oid(first)]).unwrap();
    assert_eq!(commits.len(), 2);
    assert_eq!(commits[0].oid, to_oid(second));
    assert_eq!(commits[0].parent_oid, to_oid(first));
    assert_eq!(commits[1].oid, to_oid(first));
    assert_eq!(commits[1].parent_oid, to_oid(root));
    assert!(git.prepare_commits(&vec![]).unwrap().is_empty());
    // The root has no parent.
    assert_eq!(
        git.prepare_commits(&vec![to_oid(first), to_oid(root)]).unwrap_err().kind(),
        ErrorKind::Validation
    );
    assert_eq!(
        git.prepare_commits(&vec![Oid::from_bytes([5; 20])]).unwrap_err().kind(),
        ErrorKind::Backend
    );
}

#[test]
fn missing_commits_need_an_answer_for_each_commit() {
    let one = Oid::from_bytes([1; 20]);
    assert!(spr::git::missing_commits(&vec![one], &vec![]).is_empty());
    assert!(spr::git::missing_commits(&vec![one], &vec![false, false]).is_empty());
}

#[test]
fn text_is_new_where_it_differs_from_the_message_shown() {
    assert!(!spr::git::is_new_text(&Some("A".to_string()), "A"));
    assert!(spr::git::is_new_text(&Some("A".to_string()), "B"));
    assert!(spr::git::is_new_text(&None, "A"));
    assert!(spr::git::is_new_text(&None, ""));
}

#[test]
fn outcomes_of_the_steps_of_a_rebase() {
    assert!(spr::git::check_rebase_replay(false).is_ok());
    let failure = spr::git::check_rebase_replay(true).unwrap_err();
    assert_eq!(failure.kind(), ErrorKind::Conflict);
    assert_eq!(failure.messages(), &vec!["Rebase failed due to merge conflicts".to_string()]);
    assert!(spr::git::check_checkout(Ok(())).is_ok());
    let failure =
        spr::git::check_checkout(Err(git2::Error::from_str("local changes"))).unwrap_err();
    assert_eq!(failure.kind(), ErrorKind::Backend);
    assert_eq!(
        failure.messages(),
        &vec!["Could not check out rebased branch - please rebase manually".to_string()]
    );
}

#[test]
fn operator_is_named_or_not() {
    let person = spr::person::Person {
        name: "Operator".to_string(),
        email: "operator@example.com".to_string(),
    };
    assert_eq!(spr::git::named_operator(Ok(person)).unwrap().name, "Operator");
    assert!(spr::git::named_operator(Err(git2::Error::from_str("no name"))).is_none());
}

#[test]
fn derived_commit_from_a_text_keeps_the_text() {
    let (_temp_dir, repo) = create_test_git_repo();
    let root = head_of(&repo);
    let first = create_test_commit(&repo, "First", "one");
    let tree = repo.find_commit(first).unwrap().tree_id();
    let mut settings = repo.config().unwrap();
    settings.set_str("user.name", " Operator, ").unwrap();
    settings.set_str("user.email", "operator@example.com").unwrap();
    settings.set_bool("commit.gpgsign", false).unwrap();
    drop(settings);
    let sign = spr::git::CommitSign::new(&repo);
    let derived = spr::git::derive_commit(
        &repo,
        &sign,
        to_oid(first),
        "  Kept as it is  ",
        to_oid(tree),
        &vec![to_oid(root)],
    )
    .unwrap();
    let commit = repo.find_commit(to_git(derived)).unwrap();
    assert_eq!(commit.message().unwrap(), "  Kept as it is  ");
    assert_eq!(commit.tree_id(), tree);
    assert_eq!(commit.author().name().unwrap(), "Test User");
    assert_eq!(commit.committer().name().unwrap(), "Operator");
    assert_eq!(commit.committer().email().unwrap(), "operator@example.com");
}

#[test]
fn revision_that_was_not_resolved_is_a_backend_failure() {
    let (_temp_dir, repo) = create_test_git_repo();
    let dot_git = repo.path().to_string_lossy().into_owned();
    let dot_git = dot_git.trim_end_matches('/').to_string();
    let root_dir = dot_git.strip_suffix("/.git").unwrap().to_string();
    let jj = JujutsuRepo::from_git_path(&dot_git, "jj", &root_dir);
    let git = Git::new(repo, jj).unwrap();
    let failure = git
        .lock_and_get_prepared_commits_for_revision("refs/remotes/origin/main", Some("@"), None)
        .unwrap_err();
    assert_eq!(failure.kind(), ErrorKind::Backend);
    assert_eq!(failure.to_string(), "The revision was not resolved to a commit");
}

#[test]
fn record_of_a_commit_has_its_message_and_a_prefix_of_its_identity() {
    let (_temp_dir, repo) = create_test_git_repo();
    let first = create_test_commit(&repo, "First\n\nbody\n", "one");
    let git = new_git(repo);
    let commit = git.lock_and_prepare_commit(to_oid(first)).unwrap();
    assert_eq!(commit.message, "First\n\nbody\n");
    assert!(commit.short_id.len() >= 4);
    assert!(to_oid(first).to_hex().starts_with(&commit.short_id));
}

#[test]
fn commit_by_two_people_records_them_without_the_marks_at_their_ends() {
    let (_temp_dir, repo) = create_test_git_repo();
    let root = head_of(&repo);
    let tree = repo.find_commit(root).unwrap().tree_id();
    let author = spr::person::Person {
        name: " An Author, ".to_string(),
        email: "author@example.com".to_string(),
    };
    let committer = spr::person::Person {
        name: "'A Committer'".to_string(),
        email: " committer@example.com;".to_string(),
    };
    let made = spr::git::commit_by(
        &repo,
        &spr::git::CommitSign::Disabled,
        &author,
        &committer,
        "Text",
        to_oid(tree),
        &vec![to_oid(root)],
    )
    .unwrap();
    let commit = repo.find_commit(to_git(made)).unwrap();
    assert_eq!(commit.author().name().unwrap(), "An Author");
    assert_eq!(commit.author().email().unwrap(), "author@example.com");
    assert_eq!(commit.committer().name().unwrap(), "A Committer");
    assert_eq!(commit.committer().email().unwrap(), "committer@example.com");
    assert_eq!(commit.message().unwrap(), "Text");
    assert!(commit.header_field_bytes("gpgsig").is_err());
    // A name of which nothing is left cannot be recorded.
    let nobody = spr::person::Person { name: " ,; ".to_string(), email: "x@example.com".to_string() };
    let failure = spr::git::commit_by(
        &repo,
        &spr::git::CommitSign::Disabled,
        &nobody,
        &committer,
        "Text",
        to_oid(tree),
        &vec![to_oid(root)],
    )
    .unwrap_err();
    assert_eq!(failure.kind(), ErrorKind::Backend);
}

#[test]
fn person_with_a_line_end_is_refused_before_the_store_is_asked() {
    let (_temp_dir, repo) = create_test_git_repo();
    let root = head_of(&repo);
    let tree = repo.find_commit(root).unwrap().tree_id();
    let person = |name: &str, email: &str| spr::person::Person {
        name: name.to_string(),
        email: email.to_string(),
    };
    assert!(person("A B", "a@example.com").is_one_line());
    assert!(!person("A\nB", "a@example.com").is_one_line());
    assert!(!person("A", "a@example.com\n").is_one_line());
    let good = person("A Committer", "committer@example.com");
    let objects_before = repo.odb().unwrap().exists(root);
    assert!(objects_before);
    for bad in [
        person("A\nB", "a@example.com"),
        person("A\n\nB", "a@example.com"),
        person("A", "a@exam\nple.com"),
    ] {
        let failure = spr::git::commit_by(
            &repo,
            &spr::git::CommitSign::Disabled,
            &bad,
            &good,
            "Text",
            to_oid(tree),
            &vec![to_oid(root)],
        )
        .unwrap_err();
        assert_eq!(failure.kind(), ErrorKind::Backend);
        assert_eq!(
            failure.messages(),
            &vec!["The name or the address of a person holds a line end".to_string()]
        );
        let failure = spr::git::commit_by(
            &repo,
            &spr::git::CommitSign::Disabled,
            &good,
            &bad,
            "Text",
            to_oid(tree),
            &vec![to_oid(root)],
        )
        .unwrap_err();
        assert_eq!(failure.kind(), ErrorKind::Backend);
    }
}

#[test]
fn commit_for_a_local_commit_is_by_its_author_and_the_operator() {
    let (_temp_dir, repo) = create_test_git_repo();
    let root = head_of(&repo);
    let tree = repo.find_commit(root).unwrap().tree_id();
    let person = |name: &str| spr::person::Person {
        name: name.to_string(),
        email: format!("{}@example.com", name),
    };
    let made = spr::git::commit_for(
        &repo,
        &spr::git::CommitSign::Disabled,
        person("author"),
        person("committer"),
        Some(person("operator")),
        "Text",
        to_oid(tree),
        &vec![to_oid(root)],
    )
    .unwrap();
    let commit = repo.find_commit(to_git(made)).unwrap();
    assert_eq!(commit.author().name().unwrap(), "author");
    assert_eq!(commit.committer().name().unwrap(), "operator");
    assert_eq!(commit.committer().email().unwrap(), "operator@example.com");
    let made = spr::git::commit_for(
        &repo,
        &spr::git::CommitSign::Disabled,
        person("author"),
        person("committer"),
        None,
        "Text",
        to_oid(tree),
        &vec![to_oid(root)],
    )
    .unwrap();
    let commit = repo.find_commit(to_git(made)).unwrap();
    assert_eq!(commit.author().name().unwrap(), "author");
    assert_eq!(commit.committer().name().unwrap(), "committer");
    assert_eq!(commit.committer().email().unwrap(), "committer@example.com");
}

fn commit_by_two(
    repo: &git2::Repository,
    parent: git2::Oid,
    content: &str,
    message: &str,
) -> git2::Oid {
    let author = git2::Signature::new("An Author", "author@example.com", &git2::Time::new(1000, 60))
        .unwrap();
    let committer =
        git2::Signature::new("A Committer", "committer@example.com", &git2::Time::new(2000, -120))
            .unwrap();
    let blob = repo.blob(content.as_bytes()).unwrap();
    let mut builder = repo.treebuilder(None).unwrap();
    builder.insert("test.txt", blob, 0o100644).unwrap();
    let tree = repo.find_tree(builder.write().unwrap()).unwrap();
    let parent = repo.find_commit(parent).unwrap();
    repo.commit(None, &author, &committer, message, &tree, &[&parent])
        .unwrap()
}

#[test]
fn commit_made_anew_keeps_its_author_and_its_committer() {
    let (_temp_dir, repo) = create_test_git_repo();
    let root = head_of(&repo);
    let first = commit_by_two(&repo, root, "one", "First");
    repo.reference("refs/heads/work", first, true, "test").unwrap();
    repo.set_head("refs/heads/work").unwrap();
    let tree = repo.find_commit(first).unwrap().tree_id();
    let check = git2::Repository::open(repo.path()).unwrap();
    let git = new_git(repo);
    let mut commits = vec![record(first, root, "First")];
    let messages = vec!["First, reworded".to_string()];
    git.lock_and_rewrite_commit_messages(&mut commits, &messages, None).unwrap();
    assert_ne!(commits[0].oid, to_oid(first));
    let made = check.find_commit(to_git(commits[0].oid)).unwrap();
    assert_eq!(made.message().unwrap(), "First, reworded");
    assert_eq!(made.tree_id(), tree);
    assert_eq!(made.author().name().unwrap(), "An Author");
    assert_eq!(made.author().email().unwrap(), "author@example.com");
    assert_eq!(made.author().when().seconds(), 1000);
    assert_eq!(made.author().when().offset_minutes(), 60);
    assert_eq!(made.committer().name().unwrap(), "A Committer");
    assert_eq!(made.committer().email().unwrap(), "committer@example.com");
    assert_eq!(made.committer().when().seconds(), 2000);
    assert_eq!(made.committer().when().offset_minutes(), -120);
    // The head is set to the last of the new commits.
    let head = check.head().unwrap().peel_to_commit().unwrap().id();
    assert_eq!(to_oid(head), commits[0].oid);
    let made = git.repo.commit_like(to_oid(first), "Like the first", to_oid(tree), to_oid(root));
    let like = check.find_commit(to_git(made.unwrap())).unwrap();
    assert_eq!(like.author().name().unwrap(), "An Author");
    assert_eq!(like.committer().name().unwrap(), "A Committer");
    assert_eq!(like.message().unwrap(), "Like the first");
}

#[test]
fn commit_that_is_replayed_keeps_its_author_and_its_committer() {
    let (_temp_dir, repo) = create_test_git_repo();
    let root = head_of(&repo);
    let signature = git2::Signature::now("Test User", "test@example.com").unwrap();
    let blob = repo.blob("trunk".as_bytes()).unwrap();
    let mut builder = repo.treebuilder(None).unwrap();
    builder.insert("trunk.txt", blob, 0o100644).unwrap();
    let tree = repo.find_tree(builder.write().unwrap()).unwrap();
    let root_commit = repo.find_commit(root).unwrap();
    let trunk = repo
        .commit(None, &signature, &signature, "Trunk", &tree, &[&root_commit])
        .unwrap();
    drop(root_commit);
    drop(tree);
    drop(builder);
    let first = commit_by_two(&repo, root, "one", "First");
    repo.reference("refs/heads/work", first, true, "test").unwrap();
    repo.set_head("refs/heads/work").unwrap();
    repo.checkout_head(Some(git2::build::CheckoutBuilder::new().force()))
        .unwrap();
    let check = git2::Repository::open(repo.path()).unwrap();
    let git = new_git(repo);
    let tip = git
        .lock_and_rebase_commits(&vec![record(first, root, "First")], to_oid(trunk))
        .unwrap();
    let made = check.find_commit(to_git(tip)).unwrap();
    assert_eq!(made.parent_id(0).unwrap(), trunk);
    assert_eq!(made.message().unwrap(), "First");
    assert_eq!(made.author().name().unwrap(), "An Author");
    assert_eq!(made.author().when().seconds(), 1000);
    assert_eq!(made.committer().name().unwrap(), "A Committer");
    assert_eq!(made.committer().email().unwrap(), "committer@example.com");
    assert_eq!(made.committer().when().seconds(), 2000);
}

#[test]
fn head_after_the_messages_were_written_back() {
    let one = Oid::from_bytes([1; 20]);
    let two = Oid::from_bytes([2; 20]);
    let commits = vec![record(to_git(one), to_git(two), "One"), record(to_git(two), to_git(one), "Two")];
    assert_eq!(spr::git::rewritten_head(true, &commits), Some(two));
    assert_eq!(spr::git::rewritten_head(false, &commits), None);
    assert_eq!(spr::git::rewritten_head(true, &vec![]), None);
}

#[test]
fn commit_by_the_handle_is_made_by_the_two_people() {
    let (_temp_dir, repo) = create_test_git_repo();
    let root = head_of(&repo);
    let tree = repo.find_commit(root).unwrap().tree_id();
    let check = git2::Repository::open(repo.path()).unwrap();
    let git = new_git(repo);
    let author = spr::person::Person { name: "One".to_string(), email: "one@example.com".to_string() };
    let committer =
        spr::person::Person { name: "Two".to_string(), email: "two@example.com".to_string() };
    let made = git
        .repo
        .commit(&author, &committer, "Text", to_oid(tree), &vec![to_oid(root)])
        .unwrap();
    let commit = check.find_commit(to_git(made)).unwrap();
    assert_eq!(commit.author().name().unwrap(), "One");
    assert_eq!(commit.committer().name().unwrap(), "Two");
    assert_eq!(commit.parent_id(0).unwrap(), root);
}
