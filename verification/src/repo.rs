//! The object store, as the engine sees it.
//!
//! The store belongs to `git2`. This module gives a mathematical reading to
//! what a repository holds and wraps each operation of the store that the
//! engine uses. The contracts of the wrappers are taken on trust: each says
//! above it which functions of `git2` or `git2_ext` it stands for and what it
//! claims of them.

use crate::error::ErrorKind;
use crate::error::SprError;
use crate::oid::Oid;
use crate::oid::oid_views;
use crate::person::is_one_line;
use crate::person::recorded;
use crate::person::Person;
use git2::Signature;
use git2_ext::ops::commit;
use vstd::prelude::*;

verus! {

/// The commits that a repository holds: for the identity of each, the identity
/// of its tree, the identities of its parents and its message, as the commit
/// records them.
///
/// An identity is the hash of the commit's content, of which the tree, the
/// parents and the message are a part, and the store checks the hash of what
/// it reads. So a repository never yields two different records for one
/// identity, whatever is added to it in between; only the records that a call
/// has returned, or has made, are ever said to be in this map.
pub uninterp spec fn stored_commits(repo: git2::Repository) -> Map<
    Seq<u8>,
    (Seq<u8>, Seq<Seq<u8>>, Seq<char>),
>;

/// The author and the committer that a repository shows for each commit that
/// it holds, each as name and address, with every byte sequence that is not
/// UTF-8 replaced. They are read from the content of the commit, so what is
/// said of [`stored_commits`] holds of this map too.
pub uninterp spec fn stored_people(repo: git2::Repository) -> Map<
    Seq<u8>,
    ((Seq<char>, Seq<char>), (Seq<char>, Seq<char>)),
>;

/// The commits of a repository that carry a signature.
pub uninterp spec fn signed_commits(repo: git2::Repository) -> Set<Seq<u8>>;

/// The message that a repository shows for each commit: the message that the
/// commit records, without the line ends before its first line, and `None`
/// where that is not UTF-8.
pub uninterp spec fn shown_messages(repo: git2::Repository) -> Map<Seq<u8>, Option<Seq<char>>>;

/// The message that a repository shows for each commit, with every byte
/// sequence that is not UTF-8 replaced.
pub uninterp spec fn shown_texts(repo: git2::Repository) -> Map<Seq<u8>, Seq<char>>;

/// The merge bases that a repository finds: for a pair of commits, the commit
/// that its search for a merge base of the two ends with. The map says
/// nothing of how that commit lies to the two.
pub uninterp spec fn merge_bases(repo: git2::Repository) -> Map<(Seq<u8>, Seq<u8>), Seq<u8>>;

/// The parents that a repository shows for each commit: those that the commit
/// records, unless the repository is shallow or grafted at that commit.
pub uninterp spec fn shown_parents(repo: git2::Repository) -> Map<Seq<u8>, Seq<Seq<u8>>>;

/// Whether the repository holds the commit `commit` with the tree `tree`.
pub open spec fn has_tree(repo: git2::Repository, commit: Seq<u8>, tree: Seq<u8>) -> bool {
    stored_commits(repo).contains_key(commit) && stored_commits(repo)[commit].0 == tree
}

/// Whether the repository holds the commit `commit` with the recorded parents
/// `parents`.
pub open spec fn has_parents(
    repo: git2::Repository,
    commit: Seq<u8>,
    parents: Seq<Seq<u8>>,
) -> bool {
    stored_commits(repo).contains_key(commit) && stored_commits(repo)[commit].1 == parents
}

/// Whether the repository holds the commit `commit` with the message
/// `message`.
pub open spec fn has_message(repo: git2::Repository, commit: Seq<u8>, message: Seq<char>) -> bool {
    stored_commits(repo).contains_key(commit) && stored_commits(repo)[commit].2 == message
}

/// Whether the repository shows the author `person` for the commit
/// `commit`.
pub open spec fn has_author(
    repo: git2::Repository,
    commit: Seq<u8>,
    person: (Seq<char>, Seq<char>),
) -> bool {
    stored_people(repo).contains_key(commit) && stored_people(repo)[commit].0 == person
}

/// Whether the repository shows the committer `person` for the commit
/// `commit`.
pub open spec fn has_committer(
    repo: git2::Repository,
    commit: Seq<u8>,
    person: (Seq<char>, Seq<char>),
) -> bool {
    stored_people(repo).contains_key(commit) && stored_people(repo)[commit].1 == person
}

/// Whether the repository holds the commit `commit` with a signature.
pub open spec fn is_signed(repo: git2::Repository, commit: Seq<u8>) -> bool {
    signed_commits(repo).contains(commit)
}

/// Whether the repository shows the message `message` for the commit
/// `commit`, `None` standing for a message that is not UTF-8.
pub open spec fn shows_message(
    repo: git2::Repository,
    commit: Seq<u8>,
    message: Option<Seq<char>>,
) -> bool {
    shown_messages(repo).contains_key(commit) && shown_messages(repo)[commit] == message
}

/// Whether the repository shows the text `text` for the message of the commit
/// `commit`.
pub open spec fn shows_text(repo: git2::Repository, commit: Seq<u8>, text: Seq<char>) -> bool {
    shown_texts(repo).contains_key(commit) && shown_texts(repo)[commit] == text
}

/// Whether the repository finds `base` as the merge base of `one` and `two`.
pub open spec fn finds_merge_base(
    repo: git2::Repository,
    one: Seq<u8>,
    two: Seq<u8>,
    base: Seq<u8>,
) -> bool {
    merge_bases(repo).contains_key((one, two)) && merge_bases(repo)[(one, two)] == base
}

/// The tree of a commit that the repository holds.
pub open spec fn tree_of(repo: git2::Repository, commit: Seq<u8>) -> Seq<u8> {
    stored_commits(repo)[commit].0
}

/// `Error::to_string` of `git2`: the message of the failure with its class
/// and code. Nothing is claimed of the text.
#[verifier::external_body]
fn git_error_text(e: &git2::Error) -> (r: String) {
    e.to_string()
}

/// The failure of the backend that `e` reports.
pub fn backend_error(e: git2::Error) -> (r: SprError)
    ensures
        r@.kind == ErrorKind::Backend,
        r@.messages.len() == 1,
{
    SprError::new(ErrorKind::Backend, git_error_text(&e))
}

/// What the library makes of an answer of the store: the value that the store
/// gave, as it is, or the failure of the backend that the store reports.
pub fn from_store<T>(outcome: Result<T, git2::Error>) -> (r: crate::error::Result<T>)
    ensures
        outcome matches Ok(value) ==> r == Ok::<T, SprError>(value),
        outcome is Err ==> r is Err && r->Err_0@.kind == ErrorKind::Backend
            && r->Err_0@.messages.len() == 1,
{
    match outcome {
        Ok(value) => Ok(value),
        Err(e) => Err(backend_error(e)),
    }
}

/// `Repository::find_commit` and `Commit::tree_id`: the tree of the commit
/// `oid`. On success the repository holds that commit with that tree.
#[verifier::external_body]
pub(crate) fn commit_tree_id(repo: &git2::Repository, oid: Oid) -> (r: Result<Oid, git2::Error>)
    ensures
        r matches Ok(tree) ==> stored_commits(*repo).contains_key(oid@) && stored_commits(
            *repo,
        )[oid@].0 == tree@,
{
    let commit = repo.find_commit(git2::Oid::from_bytes(&oid.bytes)?)?;
    let mut bytes = [0u8; 20];
    bytes.copy_from_slice(commit.tree_id().as_bytes());
    Ok(Oid { bytes })
}

/// `Repository::find_commit`, `Commit::tree` and `Tree::id`: the tree of the
/// commit `oid`, which has to be in the repository itself. On success the
/// repository holds that commit with that tree.
#[verifier::external_body]
pub(crate) fn commit_tree(repo: &git2::Repository, oid: Oid) -> (r: Result<Oid, git2::Error>)
    ensures
        r matches Ok(tree) ==> stored_commits(*repo).contains_key(oid@) && stored_commits(
            *repo,
        )[oid@].0 == tree@,
{
    let commit = repo.find_commit(git2::Oid::from_bytes(&oid.bytes)?)?;
    let mut bytes = [0u8; 20];
    bytes.copy_from_slice(commit.tree()?.id().as_bytes());
    Ok(Oid { bytes })
}

/// `Repository::find_commit` and `Commit::parent_ids`: the parents of the
/// commit `oid`, first parent first. On success they are the parents that the
/// repository shows for that commit.
#[verifier::external_body]
pub(crate) fn commit_parent_ids(repo: &git2::Repository, oid: Oid) -> (r: Result<
    Vec<Oid>,
    git2::Error,
>)
    ensures
        r matches Ok(parents) ==> shown_parents(*repo).contains_key(oid@) && shown_parents(
            *repo,
        )[oid@] == oid_views(parents@),
{
    let commit = repo.find_commit(git2::Oid::from_bytes(&oid.bytes)?)?;
    let mut parents = Vec::new();
    for id in commit.parent_ids() {
        let mut bytes = [0u8; 20];
        bytes.copy_from_slice(id.as_bytes());
        parents.push(Oid { bytes });
    }
    Ok(parents)
}

/// `Repository::find_commit` and `Commit::message_bytes`: the message of the
/// commit `oid`, with every byte sequence that is not UTF-8 replaced as
/// `String::from_utf8_lossy` does. On success it is the text that the
/// repository shows for that commit.
#[verifier::external_body]
pub(crate) fn commit_message_lossy(repo: &git2::Repository, oid: Oid) -> (r: Result<
    String,
    git2::Error,
>)
    ensures
        r matches Ok(text) ==> shown_texts(*repo).contains_key(oid@) && shown_texts(*repo)[oid@]
            == text@,
{
    let commit = repo.find_commit(git2::Oid::from_bytes(&oid.bytes)?)?;
    Ok(String::from_utf8_lossy(commit.message_bytes()).into_owned())
}

/// `Repository::find_commit` and `Commit::message`: the message of the commit
/// `oid` where it is UTF-8, and `None` where it is not. On success it is the
/// message that the repository shows for that commit.
#[verifier::external_body]
pub(crate) fn commit_message(repo: &git2::Repository, oid: Oid) -> (r: Result<
    Option<String>,
    git2::Error,
>)
    ensures
        r matches Ok(message) ==> shown_messages(*repo).contains_key(oid@) && shown_messages(
            *repo,
        )[oid@] == (match message {
            Some(text) => Some(text@),
            None => None,
        }),
{
    let commit = repo.find_commit(git2::Oid::from_bytes(&oid.bytes)?)?;
    Ok(commit.message().ok().map(String::from))
}

/// `Repository::find_commit`, `Object::short_id` and `Buf::as_str`: the
/// shortest prefix of the hexadecimal form of `oid`, of the length that the
/// settings ask for at least, that names one object of the repository only.
/// On success the text is the hexadecimal form of `oid` up to some length;
/// the length is for the repository to say.
#[verifier::external_body]
pub(crate) fn commit_short_id(repo: &git2::Repository, oid: Oid) -> (r: Result<
    String,
    git2::Error,
>)
    ensures
        r matches Ok(text) ==> text@.len() <= 40 && text@ == crate::oid::hex_text(oid@).take(
            text@.len() as int,
        ),
{
    let commit = repo.find_commit(git2::Oid::from_bytes(&oid.bytes)?)?;
    let short = commit.as_object().short_id()?;
    Ok(short.as_str()?.to_string())
}

/// `Repository::merge_base`: a merge base of the commits `one` and `two`. On
/// success it is the commit that the repository finds for the two; nothing is
/// claimed of how it lies to them.
#[verifier::external_body]
pub(crate) fn merge_base(repo: &git2::Repository, one: Oid, two: Oid) -> (r: Result<
    Oid,
    git2::Error,
>)
    ensures
        r matches Ok(base) ==> merge_bases(*repo).contains_key((one@, two@)) && merge_bases(
            *repo,
        )[(one@, two@)] == base@,
{
    let one = git2::Oid::from_bytes(&one.bytes)?;
    let two = git2::Oid::from_bytes(&two.bytes)?;
    let base = repo.merge_base(one, two)?;
    let mut bytes = [0u8; 20];
    bytes.copy_from_slice(base.as_bytes());
    Ok(Oid { bytes })
}

/// `Repository::cherrypick_commit` on the commits that `Repository::find_commit`
/// gives for `commit` and `onto`, with mainline 0 and the default merge
/// options: the index that results from replaying the change of `commit` on
/// `onto`. Nothing is claimed of the index.
#[verifier::external_body]
pub(crate) fn cherrypick_commit(repo: &git2::Repository, commit: Oid, onto: Oid) -> (r: Result<
    git2::Index,
    git2::Error,
>) {
    let commit = repo.find_commit(git2::Oid::from_bytes(&commit.bytes)?)?;
    let onto = repo.find_commit(git2::Oid::from_bytes(&onto.bytes)?)?;
    repo.cherrypick_commit(&commit, &onto, 0, None)
}

/// `Index::has_conflicts`: whether the index holds conflicts.
#[verifier::external_body]
pub(crate) fn index_has_conflicts(index: &git2::Index) -> (r: bool) {
    index.has_conflicts()
}

/// `Index::write_tree_to`: writes the index to the repository as a tree and
/// gives the identity of that tree. Nothing is claimed of the tree.
#[verifier::external_body]
pub(crate) fn write_index(repo: &git2::Repository, index: git2::Index) -> (r: Result<
    Oid,
    git2::Error,
>) {
    let mut index = index;
    let tree = index.write_tree_to(repo)?;
    let mut bytes = [0u8; 20];
    bytes.copy_from_slice(tree.as_bytes());
    Ok(Oid { bytes })
}

/// `Repository::references` and `Reference::name` on each reference: the full
/// names of the references of the repository, `None` standing for a name that
/// is not UTF-8. Nothing is claimed of the names.
#[verifier::external_body]
pub(crate) fn reference_names(repo: &git2::Repository) -> (r: Result<
    Vec<Option<String>>,
    git2::Error,
>) {
    let mut names = Vec::new();
    for reference in repo.references()? {
        names.push(reference?.name().ok().map(String::from));
    }
    Ok(names)
}

/// `Repository::find_reference` and `Reference::target`: the commit that the
/// reference `name` points at directly, `None` where it is symbolic. Nothing is
/// claimed of the identity.
#[verifier::external_body]
pub(crate) fn reference_target(repo: &git2::Repository, name: &str) -> (r: Result<
    Option<Oid>,
    git2::Error,
>) {
    let reference = repo.find_reference(name)?;
    match reference.target() {
        Some(id) => {
            let mut bytes = [0u8; 20];
            bytes.copy_from_slice(id.as_bytes());
            Ok(Some(Oid { bytes }))
        },
        None => Ok(None),
    }
}

/// `Hooks::with_repo` of `git2_ext`: the hooks of the repository.
#[verifier::external_body]
pub(crate) fn hooks_with_repo(repo: &git2::Repository) -> (r: Result<
    git2_ext::hooks::Hooks,
    git2::Error,
>) {
    git2_ext::hooks::Hooks::with_repo(repo)
}

/// `Repository::config`: whether the settings of the repository can be read.
#[verifier::external_body]
pub(crate) fn check_config(repo: &git2::Repository) -> (r: Result<(), git2::Error>) {
    repo.config()?;
    Ok(())
}

/// `Repository::config` and `Config::get_bool`: the value of a setting that is
/// true or false. Nothing is claimed of the value.
#[verifier::external_body]
pub(crate) fn config_get_bool(repo: &git2::Repository, name: &str) -> (r: Result<
    bool,
    git2::Error,
>) {
    repo.config()?.get_bool(name)
}

/// `Repository::config` and `UserSign::from_config` of `git2_ext`: how the
/// operator signs commits.
#[verifier::external_body]
pub(crate) fn user_sign_from_config(repo: &git2::Repository) -> (r: Result<
    git2_ext::ops::UserSign,
    git2::Error,
>) {
    git2_ext::ops::UserSign::from_config(repo, &repo.config()?)
}

/// `Repository::revwalk` with `Revwalk::set_sorting`, `Revwalk::push_head` and
/// `Revwalk::hide_ref`: the commits that are reached from the head and not
/// from the reference `hidden`, parents before children. Nothing is claimed of
/// the list.
#[verifier::external_body]
pub(crate) fn walk_from_head(repo: &git2::Repository, hidden: &str) -> (r: Result<
    Vec<Oid>,
    git2::Error,
>) {
    let mut walk = repo.revwalk()?;
    walk.set_sorting(git2::Sort::TOPOLOGICAL.union(git2::Sort::REVERSE))?;
    walk.push_head()?;
    walk.hide_ref(hidden)?;
    let mut oids = Vec::new();
    for id in walk {
        let mut bytes = [0u8; 20];
        bytes.copy_from_slice(id?.as_bytes());
        oids.push(Oid { bytes });
    }
    Ok(oids)
}

/// `Repository::head`, `Reference::resolve` and `Reference::target`: the
/// commit that the head points at, `None` where it points at none. Nothing is
/// claimed of the identity.
#[verifier::external_body]
pub(crate) fn head_target(repo: &git2::Repository) -> (r: Result<Option<Oid>, git2::Error>) {
    match repo.head()?.resolve()?.target() {
        Some(id) => {
            let mut bytes = [0u8; 20];
            bytes.copy_from_slice(id.as_bytes());
            Ok(Some(Oid { bytes }))
        },
        None => Ok(None),
    }
}

/// `Repository::find_reference`, `Reference::peel_to_commit` and `Commit::id`:
/// the commit that the reference `name` leads to. Nothing is claimed of the
/// identity.
#[verifier::external_body]
pub(crate) fn reference_commit(repo: &git2::Repository, name: &str) -> (r: Result<
    Oid,
    git2::Error,
>) {
    let id = repo.find_reference(name)?.peel_to_commit()?.id();
    let mut bytes = [0u8; 20];
    bytes.copy_from_slice(id.as_bytes());
    Ok(Oid { bytes })
}

/// `Repository::find_commit`: whether the repository gives a commit for
/// `oid`.
#[verifier::external_body]
pub(crate) fn commit_is_present(repo: &git2::Repository, oid: Oid) -> (r: bool) {
    match git2::Oid::from_bytes(&oid.bytes) {
        Ok(id) => repo.find_commit(id).is_ok(),
        Err(_) => false,
    }
}

/// `Repository::statuses` without ignored and without untracked files, and
/// `Statuses::is_empty`: whether the working copy is without changes.
#[verifier::external_body]
pub(crate) fn worktree_is_clean(repo: &git2::Repository) -> (r: Result<bool, git2::Error>) {
    let mut opts = git2::StatusOptions::new();
    opts.include_ignored(false).include_untracked(false);
    Ok(repo.statuses(Some(&mut opts))?.is_empty())
}

/// `message_prettify` of `git2` without a comment character: the message
/// without needless white space and with a line end at its end. What counts
/// as white space is for the process that runs to say, so nothing is claimed
/// of the text.
#[verifier::external_body]
pub(crate) fn prettify_message(message: &str) -> (r: Result<String, git2::Error>) {
    git2::message_prettify(message, None)
}

/// `Repository::find_commit` and `Commit::author`: the author of the commit
/// `oid`, name and address read as `String::from_utf8_lossy` reads them. On
/// success it is the author that the repository shows for that commit.
#[verifier::external_body]
pub(crate) fn commit_author(repo: &git2::Repository, oid: Oid) -> (r: Result<Person, git2::Error>)
    ensures
        r matches Ok(person) ==> stored_people(*repo).contains_key(oid@) && stored_people(
            *repo,
        )[oid@].0 == person@,
{
    let commit = repo.find_commit(git2::Oid::from_bytes(&oid.bytes)?)?;
    let author = commit.author();
    let name = String::from_utf8_lossy(author.name_bytes()).into_owned();
    let email = String::from_utf8_lossy(author.email_bytes()).into_owned();
    Ok(Person { name, email })
}

/// `Repository::find_commit` and `Commit::committer`: the committer of the
/// commit `oid`, name and address read as `String::from_utf8_lossy` reads
/// them. On success it is the committer that the repository shows for that
/// commit.
#[verifier::external_body]
pub(crate) fn commit_committer(repo: &git2::Repository, oid: Oid) -> (r: Result<
    Person,
    git2::Error,
>)
    ensures
        r matches Ok(person) ==> stored_people(*repo).contains_key(oid@) && stored_people(
            *repo,
        )[oid@].1 == person@,
{
    let commit = repo.find_commit(git2::Oid::from_bytes(&oid.bytes)?)?;
    let committer = commit.committer();
    let name = String::from_utf8_lossy(committer.name_bytes()).into_owned();
    let email = String::from_utf8_lossy(committer.email_bytes()).into_owned();
    Ok(Person { name, email })
}

/// `Repository::signature`: the operator as the settings of the repository
/// name them, name and address read as `String::from_utf8_lossy` reads them.
/// Nothing is claimed of the person.
#[verifier::external_body]
pub(crate) fn operator(repo: &git2::Repository) -> (r: Result<Person, git2::Error>) {
    let operator = repo.signature()?;
    let name = String::from_utf8_lossy(operator.name_bytes()).into_owned();
    let email = String::from_utf8_lossy(operator.email_bytes()).into_owned();
    Ok(Person { name, email })
}

/// `Signature::now` for the author and for the committer, and `commit` of
/// `git2_ext`, which signs where `sign` is given: a new commit with the tree
/// `tree`, the parents `parents` and the message `message`, by `author` and
/// `committer` at the time of now. On success the repository holds the new
/// commit with that tree, those parents and that message, and shows for it
/// the two people as a commit records them: name and address without the
/// characters that are taken from their ends. The commit carries a signature
/// exactly where `sign` is given.
///
/// No name and no address may hold a line end: the store would write it
/// into the commit as it is, and the line of the person would end there.
#[verifier::external_body]
pub(crate) fn create_stamped_commit(
    repo: &git2::Repository,
    sign: Option<&git2_ext::ops::UserSign>,
    author: &Person,
    committer: &Person,
    message: &str,
    tree: Oid,
    parents: &Vec<Oid>,
) -> (r: Result<Oid, git2::Error>)
    requires
        is_one_line(author@),
        is_one_line(committer@),
    ensures
        r matches Ok(commit) ==> stored_commits(*repo).contains_key(commit@) && stored_commits(
            *repo,
        )[commit@] == (tree@, oid_views(parents@), message@) && stored_people(
            *repo,
        ).contains_key(commit@) && stored_people(*repo)[commit@] == (
            recorded(author@),
            recorded(committer@),
        ) && (signed_commits(*repo).contains(commit@) <==> sign is Some),
{
    let a = Signature::now(&author.name, &author.email)?;
    let c = Signature::now(&committer.name, &committer.email)?;
    let tree = repo.find_tree(git2::Oid::from_bytes(&tree.bytes)?)?;
    let mut commits = Vec::new();
    for parent in parents.iter() {
        commits.push(repo.find_commit(git2::Oid::from_bytes(&parent.bytes)?)?);
    }
    let refs: Vec<_> = commits.iter().collect();
    let sign = sign.map(|s| -> &dyn git2_ext::ops::Sign { s });
    let id = commit(repo, &a, &c, message, &tree, &refs, sign)?;
    Ok(Oid { bytes: id.as_bytes().try_into().unwrap_or_default() })
}

/// `Repository::find_commit`, `Commit::author`, `Commit::committer` and
/// `commit` of `git2_ext` without signing: a new commit with the tree `tree`,
/// the one parent `parent` and the message `message`, by the author and the
/// committer of the commit `source`, each with the time that `source` has
/// for them. On success the repository holds the new commit with that tree,
/// that parent and that message, without a signature, and shows for it the
/// people that it shows for `source`.
#[verifier::external_body]
pub(crate) fn recommit(
    repo: &git2::Repository,
    source: Oid,
    message: &str,
    tree: Oid,
    parent: Oid,
) -> (r: Result<Oid, git2::Error>)
    ensures
        r matches Ok(commit) ==> stored_commits(*repo).contains_key(commit@) && stored_commits(
            *repo,
        )[commit@] == (tree@, seq![parent@], message@) && stored_people(*repo).contains_key(
            source@,
        ) && stored_people(*repo).contains_key(commit@) && stored_people(*repo)[commit@]
            == stored_people(*repo)[source@] && !signed_commits(*repo).contains(commit@),
{
    let source = repo.find_commit(git2::Oid::from_bytes(&source.bytes)?)?;
    let tree = repo.find_tree(git2::Oid::from_bytes(&tree.bytes)?)?;
    let parent = repo.find_commit(git2::Oid::from_bytes(&parent.bytes)?)?;
    let (a, c) = (source.author(), source.committer());
    let id = commit(repo, &a, &c, message, &tree, &[&parent], None)?;
    Ok(Oid { bytes: id.as_bytes().try_into().unwrap_or_default() })
}

/// `Repository::find_commit`, `Commit::author`, `Commit::committer`,
/// `Signature::new` and `commit` of `git2_ext` with signing: a new, signed
/// commit with the tree `tree`, the one parent `parent` and the message
/// `message`, by the author and the committer of the commit `source`, each
/// with the time that `source` has for them. Names and addresses are read as
/// `String::from_utf8_lossy` reads them, so that what is signed is text. On
/// success the repository holds the new commit with that tree, that parent
/// and that message, with a signature, and shows for it the people that it
/// shows for `source`.
#[verifier::external_body]
pub(crate) fn recommit_signed(
    repo: &git2::Repository,
    sign: &git2_ext::ops::UserSign,
    source: Oid,
    message: &str,
    tree: Oid,
    parent: Oid,
) -> (r: Result<Oid, git2::Error>)
    ensures
        r matches Ok(commit) ==> stored_commits(*repo).contains_key(commit@) && stored_commits(
            *repo,
        )[commit@] == (tree@, seq![parent@], message@) && stored_people(*repo).contains_key(
            source@,
        ) && stored_people(*repo).contains_key(commit@) && stored_people(*repo)[commit@]
            == stored_people(*repo)[source@] && signed_commits(*repo).contains(commit@),
{
    let source = repo.find_commit(git2::Oid::from_bytes(&source.bytes)?)?;
    let tree = repo.find_tree(git2::Oid::from_bytes(&tree.bytes)?)?;
    let parent = repo.find_commit(git2::Oid::from_bytes(&parent.bytes)?)?;
    let mut by = Vec::new();
    for s in [source.author(), source.committer()] {
        let name = String::from_utf8_lossy(s.name_bytes());
        by.push(Signature::new(&name, &String::from_utf8_lossy(s.email_bytes()), &s.when())?);
    }
    let id = commit(repo, &by[0], &by[1], message, &tree, &[&parent], Some(sign))?;
    Ok(Oid { bytes: id.as_bytes().try_into().unwrap_or_default() })
}

/// `Hooks::run_post_rewrite_rebase` of `git2_ext`: tells the hooks of the
/// repository that the commit `old` was rewritten into the commit `new`.
#[verifier::external_body]
pub(crate) fn run_post_rewrite_rebase(
    repo: &git2::Repository,
    hooks: &git2_ext::hooks::Hooks,
    old: Oid,
    new: Oid,
) {
    let old = git2::Oid::from_bytes(&old.bytes);
    let new = git2::Oid::from_bytes(&new.bytes);
    if let (Ok(old), Ok(new)) = (old, new) {
        hooks.run_post_rewrite_rebase(repo, &[(old, new)]);
    }
}

/// `Repository::find_reference`, `Reference::resolve` and
/// `Reference::set_target`: makes the reference that `name` leads to point at
/// `target`, with `log` as the note in its log.
#[verifier::external_body]
pub(crate) fn set_resolved_target(
    repo: &git2::Repository,
    name: &str,
    target: Oid,
    log: &str,
) -> (r: Result<(), git2::Error>) {
    let target = git2::Oid::from_bytes(&target.bytes)?;
    repo.find_reference(name)?.resolve()?.set_target(target, log)?;
    Ok(())
}

/// `Repository::head` and `Reference::resolve`: the name of the reference
/// that the head leads to, `None` where the name is not text. Nothing is
/// claimed of the name.
#[verifier::external_body]
pub(crate) fn resolved_head_name(repo: &git2::Repository) -> (r: Result<
    Option<String>,
    git2::Error,
>) {
    Ok(repo.head()?.resolve()?.name().ok().map(String::from))
}

/// `Repository::find_commit` and `Repository::checkout_tree` with the default
/// options: sets the working copy to the tree of the commit `oid`.
#[verifier::external_body]
pub(crate) fn checkout_commit(repo: &git2::Repository, oid: Oid) -> (r: Result<(), git2::Error>) {
    let commit = repo.find_commit(git2::Oid::from_bytes(&oid.bytes)?)?;
    repo.checkout_tree(commit.as_object(), None)
}

} // verus!
