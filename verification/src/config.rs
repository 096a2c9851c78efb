//! The settings of a repository that the engine reads.

use crate::github::GitHubBranch;
use crate::github::spec_ref_local;
use crate::github::spec_ref_on_github;
use crate::text::concat;
use crate::text::decimal;
use crate::text::decimal_text;
use crate::text::spec_starts_with;
use crate::text::to_chars;
use crate::text::trim;
use crate::text::trimmed;
use vstd::prelude::*;

verus! {

/// The settings the engine works under.
#[derive(Debug)]
pub struct Config {
    /// The account that owns the repository on the hosting service.
    pub owner: String,
    /// The name of the repository on the hosting service.
    pub repo: String,
    /// The name of the remote that stands for the hosting service.
    pub remote_name: String,
    /// The trunk.
    pub master_ref: GitHubBranch,
    /// What the names of generated branches begin with.
    pub branch_prefix: String,
    pub require_approval: bool,
    pub require_test_plan: bool,
}

/// The canonical address of a pull request.
pub open spec fn spec_pull_request_url(owner: Seq<char>, repo: Seq<char>, number: u64) -> Seq<
    char,
> {
    "https://github.com/"@ + owner + "/"@ + repo + "/pull/"@ + decimal_text(number as nat)
}

impl Config {
    /// The trunk of the settings is a branch of their remote.
    pub open spec fn wf(&self) -> bool {
        &&& self.master_ref.wf()
        &&& self.master_ref.is_master_branch
        &&& self.master_ref.ref_local@ == spec_ref_local(self.remote_name@, self.master_ref.name@)
    }

    /// The settings of the repository `owner/repo`, reached through the remote
    /// `remote_name`, with the trunk `master_branch`.
    pub fn new(
        owner: String,
        repo: String,
        remote_name: String,
        master_branch: String,
        branch_prefix: String,
        require_approval: bool,
        require_test_plan: bool,
    ) -> (r: Config)
        ensures
            r.wf(),
            r.owner@ == owner@,
            r.repo@ == repo@,
            r.remote_name@ == remote_name@,
            r.branch_prefix@ == branch_prefix@,
            r.master_ref.name@ == master_branch@,
            r.master_ref.ref_on_github@ == spec_ref_on_github(master_branch@),
            r.require_approval == require_approval,
            r.require_test_plan == require_test_plan,
    {
        let master_ref = GitHubBranch::new_from_branch_name(
            master_branch.as_str(),
            remote_name.as_str(),
            master_branch.as_str(),
        );
        Config {
            owner,
            repo,
            remote_name,
            master_ref,
            branch_prefix,
            require_approval,
            require_test_plan,
        }
    }

    /// The canonical address of the pull request with the given number.
    pub fn pull_request_url(&self, number: u64) -> (r: String)
        ensures
            r@ == spec_pull_request_url(self.owner@, self.repo@, number),
    {
        let mut url = concat("https://github.com/", self.owner.as_str());
        url.append("/");
        url.append(self.repo.as_str());
        url.append("/pull/");
        let digits = decimal(number);
        url.append(digits.as_str());
        url
    }

    /// The branch called `branch_name` on the remote of these settings.
    pub fn new_github_branch(&self, branch_name: &str) -> (r: GitHubBranch)
        ensures
            r.wf(),
            r.name@ == branch_name@,
            r.ref_on_github@ == spec_ref_on_github(branch_name@),
            r.ref_local@ == spec_ref_local(self.remote_name@, branch_name@),
            r.is_master_branch == (branch_name@ == self.master_ref.name@),
    {
        GitHubBranch::new_from_branch_name(
            branch_name,
            self.remote_name.as_str(),
            self.master_ref.branch_name(),
        )
    }
}

/// The `suffix`-th name that is tried for a generated branch: the prefix and
/// the slug, and from the second on a hyphen and the number behind them.
pub open spec fn spec_candidate_name(prefix: Seq<char>, slug: Seq<char>, suffix: u64) -> Seq<char> {
    if suffix == 0 {
        prefix + slug
    } else {
        prefix + slug + "-"@ + decimal_text(suffix as nat)
    }
}

/// Whether the `suffix`-th name is taken: the local reference that tracks a
/// branch of that name on the remote is among the existing references.
pub open spec fn spec_name_taken(
    existing: Seq<Seq<char>>,
    remote_name: Seq<char>,
    prefix: Seq<char>,
    slug: Seq<char>,
    suffix: u64,
) -> bool {
    existing.contains(spec_ref_local(remote_name, spec_candidate_name(prefix, slug, suffix)))
}

/// What is said where every name that could be generated is taken.
pub open spec fn no_free_name_message() -> Seq<char> {
    "No unused branch name is left"@
}

impl Config {
    /// The first name for a generated branch that is not taken.
    ///
    /// The names tried are the prefix of the settings followed by `slug`,
    /// then the same with `-1`, `-2` and so on behind it. A name is taken
    /// where `existing_ref_names` holds the reference that tracks a branch of
    /// that name. The call fails only where all the names up to the largest
    /// number are taken.
    pub fn find_unused_branch_name(&self, existing_ref_names: &Vec<String>, slug: &str) -> (r:
        crate::error::Result<String>)
        ensures
            r matches Ok(name) ==> exists|k: u64|
                {
                    &&& name@ == spec_candidate_name(self.branch_prefix@, slug@, k)
                    &&& !#[trigger] spec_name_taken(
                        existing_ref_names.deep_view(),
                        self.remote_name@,
                        self.branch_prefix@,
                        slug@,
                        k,
                    )
                    &&& forall|j: u64|
                        j < k ==> #[trigger] spec_name_taken(
                            existing_ref_names.deep_view(),
                            self.remote_name@,
                            self.branch_prefix@,
                            slug@,
                            j,
                        )
                },
            r matches Err(e) ==> e@.kind == crate::error::ErrorKind::Backend && e@.messages
                == seq![no_free_name_message()] && forall|j: u64|
                j < u64::MAX ==> #[trigger] spec_name_taken(
                    existing_ref_names.deep_view(),
                    self.remote_name@,
                    self.branch_prefix@,
                    slug@,
                    j,
                ),
    {
        let mut suffix: u64 = 0;
        let mut branch_name = concat(self.branch_prefix.as_str(), slug);
        while suffix < u64::MAX
            invariant
                branch_name@ == spec_candidate_name(self.branch_prefix@, slug@, suffix),
                forall|j: u64|
                    j < suffix ==> #[trigger] spec_name_taken(
                        existing_ref_names.deep_view(),
                        self.remote_name@,
                        self.branch_prefix@,
                        slug@,
                        j,
                    ),
            decreases u64::MAX - suffix,
        {
            let mut remote_ref = concat("refs/remotes/", self.remote_name.as_str());
            remote_ref.append("/");
            remote_ref.append(branch_name.as_str());
            if !crate::text::string_in(existing_ref_names, remote_ref.as_str()) {
                assert(!spec_name_taken(
                    existing_ref_names.deep_view(),
                    self.remote_name@,
                    self.branch_prefix@,
                    slug@,
                    suffix,
                ));
                return Ok(branch_name);
            }
            suffix = suffix + 1;
            branch_name = concat(self.branch_prefix.as_str(), slug);
            branch_name.append("-");
            let digits = decimal(suffix);
            branch_name.append(digits.as_str());
        }
        Err(
            crate::error::SprError::new(
                crate::error::ErrorKind::Backend,
                String::from_str("No unused branch name is left"),
            ),
        )
    }

    /// The slug of the base branch of a commit whose title has the slug
    /// `title_slug`: the name of the trunk, a dot, and that slug.
    pub fn base_branch_slug(&self, title_slug: &str) -> (r: String)
        ensures
            r@ == self.master_ref.name@ + "."@ + title_slug@,
    {
        let mut slug = concat(self.master_ref.branch_name(), ".");
        slug.append(title_slug);
        slug
    }
}

/// The value of a decimal digit, and `None` for any other character.
pub open spec fn spec_digit_value(c: char) -> Option<nat> {
    let u = c as u32;
    if 0x30 <= u <= 0x39 {
        Some((u - 0x30) as nat)
    } else {
        None
    }
}

/// The number that a text of decimal digits stands for, and `None` where the
/// text is empty or holds anything else.
pub open spec fn spec_number(s: Seq<char>) -> Option<nat>
    decreases s.len(),
{
    if s.len() == 0 {
        None
    } else if s.len() == 1 {
        spec_digit_value(s[0])
    } else {
        match (spec_number(s.drop_last()), spec_digit_value(s.last())) {
            (Some(value), Some(digit)) => Some(value * 10 + digit),
            _ => None,
        }
    }
}

/// How many decimal digits a text begins with.
pub open spec fn spec_digit_run(s: Seq<char>) -> int
    decreases s.len(),
{
    if s.len() > 0 && spec_digit_value(s[0]) is Some {
        1 + spec_digit_run(s.drop_first())
    } else {
        0
    }
}

/// The number of a pull request that is written as a bare number: the number
/// itself, with a `#` and white space before it if one likes.
pub open spec fn spec_bare_reference(text: Seq<char>) -> Option<nat> {
    if text.len() > 0 && text[0] == '#' {
        spec_number(trimmed(text.skip(1)))
    } else {
        spec_number(text)
    }
}

/// What the address of every pull request of a repository begins with, after
/// `http://` or `https://`.
pub open spec fn spec_url_stem(owner: Seq<char>, repo: Seq<char>) -> Seq<char> {
    "github.com/"@ + owner + "/"@ + repo + "/pull/"@
}

/// The text of an address behind `http://` or `https://`, and `None` for a
/// text that begins with neither.
pub open spec fn spec_after_scheme(text: Seq<char>) -> Option<Seq<char>> {
    if spec_starts_with(text, "https://"@) {
        Some(text.skip(8))
    } else if spec_starts_with(text, "http://"@) {
        Some(text.skip(7))
    } else {
        None
    }
}

/// The number of a pull request that is written as its address: the address
/// of a pull request of this repository, the number in it, and then nothing
/// or something that begins with `/`, `?` or `#`.
pub open spec fn spec_url_reference(text: Seq<char>, owner: Seq<char>, repo: Seq<char>) -> Option<
    nat,
> {
    match spec_after_scheme(text) {
        Some(rest) => {
            let stem = spec_url_stem(owner, repo);
            if spec_starts_with(rest, stem) {
                let tail = rest.skip(stem.len() as int);
                let run = spec_digit_run(tail);
                if run == tail.len() || (run < tail.len() && (tail[run] == '/' || tail[run] == '?'
                    || tail[run] == '#')) {
                    spec_number(tail.take(run))
                } else {
                    None
                }
            } else {
                None
            }
        },
        None => None,
    }
}

/// The number of the pull request that a text refers to: the text, without
/// the white space around it, is a bare number or the address of a pull
/// request of this repository, and the number fits.
pub open spec fn spec_parse_pull_request_field(
    text: Seq<char>,
    owner: Seq<char>,
    repo: Seq<char>,
) -> Option<u64> {
    let bare = trimmed(text);
    match spec_bare_reference(bare) {
        Some(number) => spec_fits(Some(number)),
        None => spec_fits(spec_url_reference(bare, owner, repo)),
    }
}

/// What [`spec_digit_run`] is, said without recursion.
proof fn lemma_digit_run_is(s: Seq<char>, k: int)
    requires
        0 <= k <= s.len(),
        forall|i: int| 0 <= i < k ==> spec_digit_value(#[trigger] s[i]) is Some,
        k < s.len() ==> spec_digit_value(s[k]) is None,
    ensures
        spec_digit_run(s) == k,
    decreases s.len(),
{
    if k > 0 {
        let t = s.drop_first();
        lemma_digit_run_is(t, k - 1);
    }
}

/// A text that holds anything but digits stands for no number.
proof fn lemma_number_needs_digits(s: Seq<char>, at: int)
    requires
        0 <= at < s.len(),
        spec_digit_value(s[at]) is None,
    ensures
        spec_number(s) is None,
    decreases s.len(),
{
    if s.len() > 1 && at < s.len() - 1 {
        lemma_number_needs_digits(s.drop_last(), at);
    }
}

/// The number that the digits `chars[from..to]` stand for, where they are
/// digits and the number fits.
fn read_number(chars: &Vec<char>, from: usize, to: usize) -> (r: Option<u64>)
    requires
        from <= to <= chars.len(),
    ensures
        r == spec_fits(spec_number(chars@.subrange(from as int, to as int))),
{
    if from == to {
        return None;
    }
    let ghost digits = chars@.subrange(from as int, to as int);
    let mut value: u64 = 0;
    let mut i: usize = from;
    while i < to
        invariant
            from <= i <= to <= chars.len(),
            from < to,
            digits == chars@.subrange(from as int, to as int),
            i > from ==> spec_number(digits.take(i - from)) == Some(value as nat),
            i == from ==> value == 0,
        decreases to - i,
    {
        let c = chars[i];
        let u: u32 = c as u32;
        proof {
            assert(digits.take(i - from + 1).drop_last() =~= digits.take(i - from));
        }
        if !(0x30 <= u && u <= 0x39) {
            proof {
                lemma_number_needs_digits(digits, i - from);
            }
            return None;
        }
        let digit: u64 = (u - 0x30) as u64;
        if value > (u64::MAX - digit) / 10 {
            proof {
                lemma_number_grows(digits, i - from + 1);
            }
            return None;
        }
        value = value * 10 + digit;
        i = i + 1;
    }
    proof {
        assert(digits.take(to - from) =~= digits);
    }
    Some(value)
}

/// A number does not get smaller by more digits behind it.
proof fn lemma_number_grows(s: Seq<char>, n: int)
    requires
        1 <= n <= s.len(),
    ensures
        spec_number(s) matches Some(whole) ==> (spec_number(s.take(n)) matches Some(part) && part
            <= whole),
    decreases s.len() - n,
{
    if n < s.len() {
        lemma_number_grows(s, n + 1);
        assert(s.take(n + 1).drop_last() =~= s.take(n));
    } else {
        assert(s.take(n) =~= s);
    }
}

/// A number as far as it fits.
pub open spec fn spec_fits(number: Option<nat>) -> Option<u64> {
    match number {
        Some(n) => if n <= u64::MAX {
            Some(n as u64)
        } else {
            None
        },
        None => None,
    }
}

/// A text that is a bare number is no address.
proof fn lemma_bare_is_no_url(text: Seq<char>, owner: Seq<char>, repo: Seq<char>)
    requires
        spec_bare_reference(text) is Some,
    ensures
        spec_url_reference(text, owner, repo) is None,
{
    reveal_strlit("https://");
    reveal_strlit("http://");
    if !(text.len() > 0 && text[0] == '#') {
        if text.len() > 0 && spec_digit_value(text[0]) is None {
            lemma_number_needs_digits(text, 0);
        }
    }
    if spec_starts_with(text, "https://"@) {
        assert(text.take(8)[0] == 'h');
    }
    if spec_starts_with(text, "http://"@) {
        assert(text.take(7)[0] == 'h');
    }
}

/// The number of a pull request that is written as a bare number.
fn read_bare_reference(chars: &Vec<char>) -> (r: Option<u64>)
    ensures
        r == spec_fits(spec_bare_reference(chars@)),
{
    let n = chars.len();
    if n > 0 && chars[0] == '#' {
        let rest = string_from_chars_range(chars, 1, n);
        let inner = trim(rest.as_str());
        let digits = to_chars(inner.as_str());
        proof {
            assert(digits@.subrange(0, digits@.len() as int) =~= digits@);
        }
        read_number(&digits, 0, digits.len())
    } else {
        proof {
            assert(chars@.subrange(0, n as int) =~= chars@);
        }
        read_number(chars, 0, n)
    }
}

/// The number of a pull request that is written as its address.
fn read_url_reference(chars: &Vec<char>, owner: &str, repo: &str) -> (r: Option<u64>)
    ensures
        r == spec_fits(spec_url_reference(chars@, owner@, repo@)),
{
    let n = chars.len();
    proof {
        reveal_strlit("https://");
        reveal_strlit("http://");
        assert(chars@.skip(0) =~= chars@);
    }
    let start: usize = if starts_with_at(chars, 0, "https://") {
        8
    } else if starts_with_at(chars, 0, "http://") {
        7
    } else {
        return None;
    };
    let mut stem = concat("github.com/", owner);
    stem.append("/");
    stem.append(repo);
    stem.append("/pull/");
    if !starts_with_at(chars, start, stem.as_str()) {
        return None;
    }
    let first = start + stem.as_str().unicode_len();
    let end = digits_end(chars, first);
    proof {
        let rest = chars@.skip(start as int);
        let tail = rest.skip(stem@.len() as int);
        assert forall|i: int| 0 <= i < end - first implies spec_digit_value(#[trigger] tail[i])
            is Some by {}
        lemma_digit_run_is(tail, end - first);
        assert(tail.take(end - first) =~= chars@.subrange(first as int, end as int));
    }
    if end == n || chars[end] == '/' || chars[end] == '?' || chars[end] == '#' {
        read_number(chars, first, end)
    } else {
        None
    }
}

/// Where the digits that begin at `first` end.
fn digits_end(chars: &Vec<char>, first: usize) -> (end: usize)
    requires
        first <= chars.len(),
    ensures
        first <= end <= chars.len(),
        forall|i: int| first <= i < end ==> spec_digit_value(#[trigger] chars@[i]) is Some,
        end < chars.len() ==> spec_digit_value(chars@[end as int]) is None,
{
    let mut end: usize = first;
    while end < chars.len() && is_digit(chars[end])
        invariant
            first <= end <= chars.len(),
            forall|i: int| first <= i < end ==> spec_digit_value(#[trigger] chars@[i]) is Some,
        decreases chars.len() - end,
    {
        end = end + 1;
    }
    end
}

impl Config {
    /// The number of the pull request that `text` refers to, if it refers to
    /// one: a bare number, with a `#` before it if one likes, or the address
    /// of a pull request of this repository.
    pub fn parse_pull_request_field(&self, text: &str) -> (r: Option<u64>)
        ensures
            r == spec_parse_pull_request_field(text@, self.owner@, self.repo@),
    {
        let bare = trim(text);
        let chars = to_chars(bare.as_str());
        match read_bare_reference(&chars) {
            Some(number) => Some(number),
            None => {
                proof {
                    if spec_bare_reference(chars@) is Some {
                        lemma_bare_is_no_url(chars@, self.owner@, self.repo@);
                    }
                }
                read_url_reference(&chars, self.owner.as_str(), self.repo.as_str())
            },
        }
    }
}

/// Whether `c` is a decimal digit.
fn is_digit(c: char) -> (r: bool)
    ensures
        r == (spec_digit_value(c) is Some),
{
    let u: u32 = c as u32;
    0x30 <= u && u <= 0x39
}

/// Whether `pattern` stands in `chars` at the index `at`.
fn starts_with_at(chars: &Vec<char>, at: usize, pattern: &str) -> (r: bool)
    requires
        at <= chars.len(),
    ensures
        r == spec_starts_with(chars@.skip(at as int), pattern@),
{
    let wanted = to_chars(pattern);
    if wanted.len() > chars.len() - at {
        return false;
    }
    let found = crate::text::matches_at(chars, &wanted, at);
    proof {
        assert(chars@.subrange(at as int, at + wanted@.len()) =~= chars@.skip(at as int).take(
            wanted@.len() as int,
        ));
    }
    found
}

/// The text made of `chars[from..to]`.
fn string_from_chars_range(chars: &Vec<char>, from: usize, to: usize) -> (r: String)
    requires
        from <= to <= chars.len(),
    ensures
        r@ == chars@.subrange(from as int, to as int),
{
    let mut part: Vec<char> = Vec::new();
    let mut i: usize = from;
    while i < to
        invariant
            from <= i <= to <= chars.len(),
            part@ == chars@.subrange(from as int, i as int),
        decreases to - i,
    {
        part.push(chars[i]);
        i = i + 1;
    }
    crate::text::string_from_chars(&part)
}

/// The decimal form of a number stands for that number.
pub proof fn lemma_number_of_decimal(n: nat)
    ensures
        spec_number(decimal_text(n)) == Some(n),
    decreases n,
{
    if n >= 10 {
        lemma_number_of_decimal(n / 10);
        crate::text::lemma_decimal_text(n / 10);
        let text = decimal_text(n);
        assert(text.drop_last() =~= decimal_text(n / 10));
    }
}

/// The canonical address of a pull request is read back as the number of
/// that pull request: a reference that has been brought to the canonical
/// form stays as it is when it is read again.
pub proof fn lemma_pull_request_url_is_read_back(owner: Seq<char>, repo: Seq<char>, number: u64)
    ensures
        spec_parse_pull_request_field(spec_pull_request_url(owner, repo, number), owner, repo)
            == Some(number),
{
    reveal_strlit("https://github.com/");
    reveal_strlit("https://");
    reveal_strlit("http://");
    reveal_strlit("github.com/");
    let digits = decimal_text(number as nat);
    let url = spec_pull_request_url(owner, repo, number);
    let stem = spec_url_stem(owner, repo);
    crate::text::lemma_decimal_text(number as nat);
    lemma_number_of_decimal(number as nat);
    crate::text::lemma_trim_end_is(url, url.len() as int);
    crate::text::lemma_trim_start_is(url, 0);
    assert(trimmed(url) == url);
    lemma_number_needs_digits(url, 0);
    assert(url.take(8) =~= "https://"@);
    let rest = url.skip(8);
    assert(rest.take(stem.len() as int) =~= stem);
    let tail = rest.skip(stem.len() as int);
    assert(tail =~= digits);
    lemma_digit_run_is(tail, tail.len() as int);
    assert(tail.take(tail.len() as int) =~= tail);
}

} // verus!
