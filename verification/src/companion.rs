//! What is asked of the companion tool and how its answers are read.
//!
//! The tool is a program of its own. Running it is left to the caller: the
//! functions here make the arguments of a call and read the text that the
//! tool wrote in answer.

use crate::error::ErrorKind;
use crate::error::Result;
use crate::error::SprError;
use crate::oid::hex_bytes;
use crate::oid::hex_text;
use crate::oid::is_hex_text;
use crate::oid::Oid;
use crate::oid::oid_from_hex;
use crate::oid::oid_views;
use crate::text::concat;
use crate::text::contains;
use crate::text::decimal;
use crate::text::decimal_text;
use crate::text::spec_contains;
use crate::text::spec_split;
use crate::text::spec_split_once;
use crate::text::spec_starts_with;
use crate::text::split;
use crate::text::split_once;
use crate::text::string_in;
use crate::text::trim;
use crate::text::trimmed;
use vstd::prelude::*;

verus! {

/// The arguments that ask for the commit of a revision: one line, the
/// identity of the commit in hexadecimal.
pub open spec fn spec_revision_query(revision: Seq<char>) -> Seq<Seq<char>> {
    seq!["log"@, "--no-graph"@, "-r"@, revision, "--template"@, "commit_id"@]
}

/// The arguments that ask for the commit of a revision.
pub fn revision_query(revision: &str) -> (r: Vec<String>)
    ensures
        r.deep_view() == spec_revision_query(revision@),
{
    let mut args: Vec<String> = Vec::new();
    args.push(String::from_str("log"));
    args.push(String::from_str("--no-graph"));
    args.push(String::from_str("-r"));
    args.push(String::from_str(revision));
    args.push(String::from_str("--template"));
    args.push(String::from_str("commit_id"));
    args
}

/// How the failure to read an identity begins: it names the text that was
/// taken for one.
pub open spec fn commit_id_message_start(text: Seq<char>) -> Seq<char> {
    "Failed to parse commit ID '"@ + text + "' from jj output: "@
}

/// Reads the answer to [`revision_query`]: the identity of one commit, with
/// white space around it left out.
pub fn parse_commit_id(output: &str) -> (r: Result<Oid>)
    ensures
        r is Ok <==> is_hex_text(trimmed(output@)),
        r matches Ok(oid) ==> oid@ == hex_bytes(trimmed(output@)),
        r matches Err(e) ==> e@.kind == ErrorKind::Backend && e@.messages.len() == 1
            && spec_starts_with(e@.messages[0], commit_id_message_start(trimmed(output@))),
{
    let text = trim(output);
    match oid_from_hex(text.as_str()) {
        Ok(oid) => Ok(oid),
        Err(e) => {
            let mut message = concat("Failed to parse commit ID '", text.as_str());
            message.append("' from jj output: ");
            let ghost start = message@;
            let cause = crate::repo::backend_error(e);
            let why = crate::text::join(cause.messages(), "\n");
            message.append(why.as_str());
            proof {
                assert(message@.take(start.len() as int) =~= start);
            }
            Err(SprError::new(ErrorKind::Backend, message))
        },
    }
}

/// The arguments that ask for the commits of a range: one line for each, the
/// identity of the commit in hexadecimal.
pub open spec fn spec_range_query(from: Seq<char>, to: Seq<char>) -> Seq<Seq<char>> {
    seq![
        "log"@,
        "--no-graph"@,
        "-r"@,
        from + "::"@ + to,
        "--template"@,
        "commit_id ++ \"\\n\""@,
    ]
}

/// The arguments that ask for the commits of a range.
pub fn range_query(from_revision: &str, to_revision: &str) -> (r: Vec<String>)
    ensures
        r.deep_view() == spec_range_query(from_revision@, to_revision@),
{
    let mut range = concat(from_revision, "::");
    range.append(to_revision);
    let mut args: Vec<String> = Vec::new();
    args.push(String::from_str("log"));
    args.push(String::from_str("--no-graph"));
    args.push(String::from_str("-r"));
    args.push(range);
    args.push(String::from_str("--template"));
    args.push(String::from_str("commit_id ++ \"\\n\""));
    args
}

/// The identities that the lines of an answer stand for, in the order of the
/// lines, and `None` where a line that is not empty is no identity. White
/// space around a line is left out, and so are lines with nothing else.
pub open spec fn spec_commit_ids(lines: Seq<Seq<char>>) -> Option<Seq<Seq<u8>>>
    decreases lines.len(),
{
    if lines.len() == 0 {
        Some(Seq::<Seq<u8>>::empty())
    } else {
        match spec_commit_ids(lines.drop_last()) {
            Some(ids) => {
                let text = trimmed(lines.last());
                if text.len() == 0 {
                    Some(ids)
                } else if is_hex_text(text) {
                    Some(ids.push(hex_bytes(text)))
                } else {
                    None
                }
            },
            None => None,
        }
    }
}

/// Reads the answer to [`range_query`]: the identities of the commits, in the
/// order in which the tool wrote them.
pub fn parse_commit_ids(output: &str) -> (r: Result<Vec<Oid>>)
    ensures
        r is Ok <==> spec_commit_ids(spec_split(output@, '\n')) is Some,
        r matches Ok(ids) ==> Some(oid_views(ids@)) == spec_commit_ids(spec_split(output@, '\n')),
        r matches Err(e) ==> e@.kind == ErrorKind::Backend,
{
    let lines = split(output, '\n');
    let mut ids: Vec<Oid> = Vec::new();
    let mut i: usize = 0;
    while i < lines.len()
        invariant
            i <= lines.len(),
            lines.deep_view() == spec_split(output@, '\n'),
            spec_commit_ids(lines.deep_view().take(i as int)) == Some(oid_views(ids@)),
        decreases lines.len() - i,
    {
        let ghost all = lines.deep_view();
        proof {
            assert(all.take(i + 1).drop_last() =~= all.take(i as int));
        }
        let text = trim(lines[i].as_str());
        if text.as_str().unicode_len() > 0 {
            match oid_from_hex(text.as_str()) {
                Ok(oid) => {
                    ids.push(oid);
                },
                Err(e) => {
                    proof {
                        lemma_commit_ids_fail(all, i + 1);
                    }
                    let mut message = concat("Failed to parse commit ID '", text.as_str());
                    message.append("': ");
                    let cause = crate::repo::backend_error(e);
                    let why = crate::text::join(cause.messages(), "\n");
                    message.append(why.as_str());
                    return Err(SprError::new(ErrorKind::Backend, message));
                },
            }
        }
        i = i + 1;
    }
    proof {
        assert(lines.deep_view().take(lines@.len() as int) =~= lines.deep_view());
    }
    Ok(ids)
}

/// Once the first lines cannot be read, no longer answer can.
proof fn lemma_commit_ids_fail(lines: Seq<Seq<char>>, n: int)
    requires
        0 <= n <= lines.len(),
        spec_commit_ids(lines.take(n)) is None,
    ensures
        spec_commit_ids(lines) is None,
    decreases lines.len() - n,
{
    if n < lines.len() {
        assert(lines.take(n + 1).drop_last() =~= lines.take(n));
        lemma_commit_ids_fail(lines, n + 1);
    } else {
        assert(lines.take(n) =~= lines);
    }
}

/// The arguments that ask for the identity of the change that a commit
/// belongs to.
pub open spec fn spec_change_id_query(commit: Seq<u8>) -> Seq<Seq<char>> {
    seq!["log"@, "--no-graph"@, "-r"@, hex_text(commit), "--template"@, "change_id"@]
}

/// The arguments that ask for the identity of the change that a commit
/// belongs to.
pub fn change_id_query(commit_oid: Oid) -> (r: Vec<String>)
    ensures
        r.deep_view() == spec_change_id_query(commit_oid@),
{
    let mut args: Vec<String> = Vec::new();
    args.push(String::from_str("log"));
    args.push(String::from_str("--no-graph"));
    args.push(String::from_str("-r"));
    args.push(commit_oid.to_hex());
    args.push(String::from_str("--template"));
    args.push(String::from_str("change_id"));
    args
}

/// Reads the answer to [`change_id_query`]: the identity of the change, with
/// white space around it left out.
pub fn parse_change_id(output: &str) -> (r: String)
    ensures
        r@ == trimmed(output@),
{
    trim(output)
}

/// The arguments that give a change a new description.
pub open spec fn spec_describe_args(change_id: Seq<char>, message: Seq<char>) -> Seq<Seq<char>> {
    seq!["describe"@, "-r"@, change_id, "-m"@, message]
}

/// The arguments that give a change a new description.
pub fn describe_args(change_id: &str, message: &str) -> (r: Vec<String>)
    ensures
        r.deep_view() == spec_describe_args(change_id@, message@),
{
    let mut args: Vec<String> = Vec::new();
    args.push(String::from_str("describe"));
    args.push(String::from_str("-r"));
    args.push(String::from_str(change_id));
    args.push(String::from_str("-m"));
    args.push(String::from_str(message));
    args
}

/// What is said where the tool could not give a change its description.
pub open spec fn describe_failed_message(stderr: Seq<char>) -> Seq<char> {
    "Failed to update commit message: "@ + stderr
}

/// The outcome of a call that gives a change a new description: a failure
/// where the tool says it failed, with what the tool wrote about it.
pub fn describe_outcome(success: bool, stderr: &str) -> (r: Result<()>)
    ensures
        r is Ok <==> success,
        r matches Err(e) ==> e@.kind == ErrorKind::Backend && e@.messages == seq![
            describe_failed_message(stderr@),
        ],
{
    if success {
        Ok(())
    } else {
        Err(SprError::new(ErrorKind::Backend, concat("Failed to update commit message: ", stderr)))
    }
}

/// Whether what the tool says of the working copy means that it is without
/// changes: it says nothing, or one of the two sentences for that.
pub open spec fn spec_is_clean(status: Seq<char>) -> bool {
    ||| trimmed(status).len() == 0
    ||| spec_contains(status, "No changes."@)
    ||| spec_contains(status, "The working copy has no changes"@)
}

/// What is said of a working copy with changes.
pub open spec fn uncommitted_message(status: Seq<char>) -> Seq<char> {
    "You have uncommitted changes:\n"@ + status
}

/// Reads what the tool says of the working copy. A working copy with changes
/// is refused.
pub fn check_status(output: &str) -> (r: Result<()>)
    ensures
        r is Ok <==> spec_is_clean(output@),
        r matches Err(e) ==> e@.kind == ErrorKind::Validation && e@.messages == seq![
            uncommitted_message(output@),
        ],
{
    let bare = trim(output);
    if bare.as_str().unicode_len() == 0 || contains(output, "No changes.") || contains(
        output,
        "The working copy has no changes",
    ) {
        Ok(())
    } else {
        Err(SprError::new(ErrorKind::Validation, concat("You have uncommitted changes:\n", output)))
    }
}

/// The exit code of the tool as it is written in a message.
pub open spec fn spec_code_text(code: Option<i32>) -> Seq<char> {
    match code {
        Some(c) => if c < 0 {
            "-"@ + decimal_text((-c) as nat)
        } else {
            decimal_text(c as nat)
        },
        None => "(unknown)"@,
    }
}

/// The exit code of the tool as it is written in a message.
pub fn code_text(code: Option<i32>) -> (r: String)
    ensures
        r@ == spec_code_text(code),
{
    match code {
        Some(c) => {
            if c < 0 {
                let magnitude: u64 = (-(c as i64)) as u64;
                let digits = decimal(magnitude);
                concat("-", digits.as_str())
            } else {
                decimal(c as u64)
            }
        },
        None => String::from_str("(unknown)"),
    }
}

/// What is said where the tool ends with a failure. `stream` names what the
/// tool wrote and `shown` is that text.
pub open spec fn exit_message(code: Option<i32>, stream: Seq<char>, shown: Seq<char>) -> Seq<char> {
    "jujutsu exited with code "@ + spec_code_text(code) + ", "@ + stream + ":\n"@ + shown
}

/// What is said where the tool wrote something that is no text.
pub open spec fn not_text_message() -> Seq<char> {
    "jujutsu output was not valid UTF-8"@
}

/// The outcome of a call of the tool: what it wrote, where it ended well and
/// wrote text.
///
/// `output` is what the tool wrote where that is text. `stream` and `shown`
/// are the name and the content of what is shown of a call that failed.
pub fn captured_output(
    success: bool,
    code: Option<i32>,
    output: Option<String>,
    stream: &str,
    shown: &str,
) -> (r: Result<String>)
    ensures
        r is Ok <==> success && output is Some,
        r matches Ok(text) ==> text == output->0,
        r matches Err(e) ==> e@.kind == ErrorKind::Backend && e@.messages == (if success {
            seq![not_text_message()]
        } else {
            seq![exit_message(code, stream@, shown@)]
        }),
{
    if success {
        match output {
            Some(text) => Ok(text),
            None => Err(
                SprError::new(
                    ErrorKind::Backend,
                    String::from_str("jujutsu output was not valid UTF-8"),
                ),
            ),
        }
    } else {
        let number = code_text(code);
        let mut message = concat("jujutsu exited with code ", number.as_str());
        message.append(", ");
        message.append(stream);
        message.append(":\n");
        message.append(shown);
        Err(SprError::new(ErrorKind::Backend, message))
    }
}

/// What the companion tool knows of a commit: the identity of the change that
/// the commit belongs to, and the description of the change.
#[derive(Debug)]
pub struct JujutsuChangeData {
    pub change_id: String,
    pub description: String,
}

/// The template of the answer to [`change_data_query`]: for each commit its
/// identity, a tab, the identity of its change, a line end, the description,
/// and a zero character.
pub open spec fn change_data_template() -> Seq<char> {
    "commit_id ++ \"\\t\" ++ change_id ++ \"\\n\" ++ description ++ \"\\0\""@
}

/// The arguments that name the commits of a query: `-r` and the identity in
/// hexadecimal for each.
pub open spec fn spec_revision_args(commits: Seq<Seq<u8>>) -> Seq<Seq<char>>
    decreases commits.len(),
{
    if commits.len() == 0 {
        Seq::<Seq<char>>::empty()
    } else {
        spec_revision_args(commits.drop_last()).push("-r"@).push(hex_text(commits.last()))
    }
}

/// The arguments that ask for the changes and the descriptions of several
/// commits at once.
pub open spec fn spec_change_data_query(commits: Seq<Seq<u8>>) -> Seq<Seq<char>> {
    seq!["log"@, "--no-graph"@, "--template"@, change_data_template()] + spec_revision_args(
        commits,
    )
}

/// The arguments that ask for the changes and the descriptions of several
/// commits at once.
pub fn change_data_query(commit_ids: &Vec<Oid>) -> (r: Vec<String>)
    ensures
        r.deep_view() == spec_change_data_query(oid_views(commit_ids@)),
{
    let mut args: Vec<String> = Vec::new();
    args.push(String::from_str("log"));
    args.push(String::from_str("--no-graph"));
    args.push(String::from_str("--template"));
    args.push(
        String::from_str("commit_id ++ \"\\t\" ++ change_id ++ \"\\n\" ++ description ++ \"\\0\""),
    );
    let ghost fixed = args.deep_view();
    let ghost ids = oid_views(commit_ids@);
    let mut i: usize = 0;
    while i < commit_ids.len()
        invariant
            i <= commit_ids.len(),
            ids == oid_views(commit_ids@),
            args.deep_view() == fixed + spec_revision_args(ids.take(i as int)),
        decreases commit_ids.len() - i,
    {
        let ghost before = args.deep_view();
        args.push(String::from_str("-r"));
        args.push(commit_ids[i].to_hex());
        proof {
            assert(ids.take(i + 1).drop_last() =~= ids.take(i as int));
            assert(args.deep_view() =~= before.push("-r"@).push(hex_text(commit_ids@[i as int]@)));
        }
        i = i + 1;
    }
    assert(ids.take(commit_ids@.len() as int) =~= ids);
    args
}

/// One record of the answer to [`change_data_query`], cut into the identity of
/// the commit, the identity of the change and the description; `None` where
/// the record has no line end, or no tab in its first line.
pub open spec fn spec_record(chunk: Seq<char>) -> Option<(Seq<char>, Seq<char>, Seq<char>)> {
    match spec_split_once(chunk, '\n') {
        Some((first_line, description)) => match spec_split_once(first_line, '\t') {
            Some((commit_id, change_id)) => Some((commit_id, change_id, description)),
            None => None,
        },
        None => None,
    }
}

/// What is wrong with a record of the answer, if anything: it is not empty
/// and has no line end, or no tab in its first line, or it is about a commit
/// that was not asked for.
pub open spec fn spec_record_problem(chunk: Seq<char>, asked: Seq<Seq<char>>) -> Option<Seq<char>> {
    if chunk.len() == 0 {
        None
    } else {
        match spec_split_once(chunk, '\n') {
            None => Some("jujutsu log output chunk did not contain a newline: "@ + chunk),
            Some((first_line, description)) => match spec_split_once(first_line, '\t') {
                None => Some("jujutsu log output chunk did not contain a tab: "@ + chunk),
                Some((commit_id, change_id)) => if asked.contains(commit_id) {
                    None
                } else {
                    Some("jujutsu log output contained an unknown commit ID: "@ + commit_id)
                },
            },
        }
    }
}

/// Looks at one record of the answer and says what is wrong with it, if
/// anything.
pub fn record_problem(chunk: &str, asked: &Vec<String>) -> (r: Option<String>)
    ensures
        (match r {
            Some(message) => Some(message@),
            None => None,
        }) == spec_record_problem(chunk@, asked.deep_view()),
{
    if chunk.unicode_len() == 0 {
        return None;
    }
    match split_once(chunk, '\n') {
        None => Some(concat("jujutsu log output chunk did not contain a newline: ", chunk)),
        Some((first_line, _description)) => match split_once(first_line.as_str(), '\t') {
            None => Some(concat("jujutsu log output chunk did not contain a tab: ", chunk)),
            Some((commit_id, _change_id)) => {
                if string_in(asked, commit_id.as_str()) {
                    None
                } else {
                    Some(
                        concat(
                            "jujutsu log output contained an unknown commit ID: ",
                            commit_id.as_str(),
                        ),
                    )
                }
            },
        },
    }
}

/// What the answer says of the commit with the identity `hex`: the change and
/// the description in the last record about that commit, and `None` where no
/// record is about it.
pub open spec fn spec_lookup(chunks: Seq<Seq<char>>, hex: Seq<char>) -> Option<
    (Seq<char>, Seq<char>),
>
    decreases chunks.len(),
{
    if chunks.len() == 0 {
        None
    } else {
        match spec_record(chunks.last()) {
            Some((commit_id, change_id, description)) => if chunks.last().len() > 0 && commit_id
                == hex {
                Some((change_id, description))
            } else {
                spec_lookup(chunks.drop_last(), hex)
            },
            None => spec_lookup(chunks.drop_last(), hex),
        }
    }
}

/// What the answer says of the commit with the identity `hex`.
pub fn lookup(chunks: &Vec<String>, hex: &str) -> (r: Option<JujutsuChangeData>)
    ensures
        (match r {
            Some(data) => Some((data.change_id@, data.description@)),
            None => None,
        }) == spec_lookup(chunks.deep_view(), hex@),
{
    let mut i: usize = chunks.len();
    let ghost all = chunks.deep_view();
    assert(all.take(all.len() as int) =~= all);
    while i > 0
        invariant
            i <= chunks.len(),
            all == chunks.deep_view(),
            spec_lookup(all, hex@) == spec_lookup(all.take(i as int), hex@),
        decreases i,
    {
        let chunk = chunks[i - 1].as_str();
        proof {
            assert(all.take(i as int).drop_last() =~= all.take(i - 1));
        }
        if chunk.unicode_len() > 0 {
            match split_once(chunk, '\n') {
                Some((first_line, description)) => match split_once(first_line.as_str(), '\t') {
                    Some((commit_id, change_id)) => {
                        if crate::text::str_eq(commit_id.as_str(), hex) {
                            return Some(JujutsuChangeData { change_id, description });
                        }
                    },
                    None => {},
                },
                None => {},
            }
        }
        i = i - 1;
    }
    None
}

/// The identities in hexadecimal of the commits among `asked` of which the
/// answer says nothing, in the order of `asked`.
pub open spec fn spec_missing(chunks: Seq<Seq<char>>, asked: Seq<Seq<char>>) -> Seq<Seq<char>>
    decreases asked.len(),
{
    if asked.len() == 0 {
        Seq::<Seq<char>>::empty()
    } else {
        let rest = spec_missing(chunks, asked.drop_last());
        if spec_lookup(chunks, asked.last()) is None {
            rest.push(asked.last())
        } else {
            rest
        }
    }
}

/// What is said where the answer leaves commits out.
pub open spec fn missing_message(missing: Seq<Seq<char>>) -> Seq<char> {
    "jujutsu log output did not contain change IDs for all commit IDs: "@
        + crate::text::spec_join(missing, ", "@)
}

/// The identities of commits in hexadecimal, in the same order.
pub open spec fn spec_hex_ids(commits: Seq<Seq<u8>>) -> Seq<Seq<char>> {
    commits.map_values(|c: Seq<u8>| hex_text(c))
}

/// The identities of commits in hexadecimal, in the same order.
pub fn hex_ids(commit_ids: &Vec<Oid>) -> (r: Vec<String>)
    ensures
        r.deep_view() == spec_hex_ids(oid_views(commit_ids@)),
{
    let mut out: Vec<String> = Vec::new();
    let mut i: usize = 0;
    while i < commit_ids.len()
        invariant
            i <= commit_ids.len(),
            out@.len() == i,
            forall|j: int| 0 <= j < i ==> (#[trigger] out@[j])@ == hex_text(commit_ids@[j]@),
        decreases commit_ids.len() - i,
    {
        out.push(commit_ids[i].to_hex());
        i = i + 1;
    }
    out
}

/// Whether no record of an answer is wrong.
pub open spec fn spec_records_good(records: Seq<Seq<char>>, asked: Seq<Seq<char>>) -> bool {
    forall|j: int|
        0 <= j < records.len() ==> spec_record_problem(#[trigger] records[j], asked) is None
}

/// Whether `message` says what is wrong with the first wrong record of an
/// answer.
pub open spec fn spec_first_problem(
    records: Seq<Seq<char>>,
    asked: Seq<Seq<char>>,
    message: Seq<char>,
) -> bool {
    exists|j: int|
        0 <= j < records.len() && spec_record_problem(#[trigger] records[j], asked) == Some(
            message,
        ) && spec_records_good(records.take(j), asked)
}

/// Whether `r` is what reading the answer `output` gives for the commits
/// `commits`: the changes and descriptions in the last record about each
/// commit, where no record is wrong and none of the commits is left out; and
/// otherwise a failure that says what is wrong with the first wrong record,
/// or which commits are left out.
pub open spec fn spec_converted(
    commits: Seq<Seq<u8>>,
    output: Seq<char>,
    r: Result<Vec<JujutsuChangeData>>,
) -> bool {
    let records = spec_split(output, '\0');
    let asked = spec_hex_ids(commits);
    match r {
        Ok(data) => {
            &&& data@.len() == commits.len()
            &&& spec_records_good(records, asked)
            &&& forall|i: int|
                0 <= i < data@.len() ==> spec_lookup(records, hex_text(commits[i])) == Some(
                    ((#[trigger] data@[i]).change_id@, data@[i].description@),
                )
        },
        Err(e) => {
            &&& e@.kind == ErrorKind::Backend
            &&& e@.messages.len() == 1
            &&& {
                ||| spec_first_problem(records, asked, e@.messages[0])
                ||| {
                    &&& spec_records_good(records, asked)
                    &&& spec_missing(records, asked).len() > 0
                    &&& e@.messages[0] == missing_message(spec_missing(records, asked))
                }
            }
        },
    }
}

/// Reads the answer to [`change_data_query`].
///
/// The answer is a series of records, each ended by a zero character; empty
/// records are passed over. The first record that is wrong makes the reading
/// fail, and so does an answer that says nothing of one of the commits asked
/// for. Otherwise the reading gives, for each commit asked for and in the same
/// order, what the last record about it says.
pub fn convert_commits_to_jj(commit_ids: &Vec<Oid>, output: &str) -> (r: Result<
    Vec<JujutsuChangeData>,
>)
    ensures
        spec_converted(oid_views(commit_ids@), output@, r),
{
    let asked = hex_ids(commit_ids);
    let chunks = split(output, '\0');
    let ghost records = chunks.deep_view();
    let ghost wanted = asked.deep_view();
    let mut j: usize = 0;
    while j < chunks.len()
        invariant
            j <= chunks.len(),
            records == chunks.deep_view(),
            records == spec_split(output@, '\0'),
            wanted == asked.deep_view(),
            wanted == spec_hex_ids(oid_views(commit_ids@)),
            forall|k: int|
                0 <= k < j ==> spec_record_problem(#[trigger] records[k], wanted) is None,
        decreases chunks.len() - j,
    {
        match record_problem(chunks[j].as_str(), &asked) {
            Some(message) => {
                proof {
                    assert(spec_record_problem(records[j as int], wanted) == Some(message@));
                }
                return Err(SprError::new(ErrorKind::Backend, message));
            },
            None => {},
        }
        j = j + 1;
    }
    let mut data: Vec<JujutsuChangeData> = Vec::new();
    let mut missing: Vec<String> = Vec::new();
    let mut i: usize = 0;
    assert(wanted.take(0) =~= Seq::<Seq<char>>::empty());
    while i < asked.len()
        invariant
            i <= asked.len(),
            asked@.len() == commit_ids@.len(),
            records == chunks.deep_view(),
            wanted == asked.deep_view(),
            wanted == spec_hex_ids(oid_views(commit_ids@)),
            missing.deep_view() == spec_missing(records, wanted.take(i as int)),
            missing@.len() == 0 ==> data@.len() == i,
            missing@.len() == 0 ==> forall|k: int|
                0 <= k < i ==> spec_lookup(records, wanted[k]) == Some(
                    ((#[trigger] data@[k]).change_id@, data@[k].description@),
                ),
        decreases asked.len() - i,
    {
        proof {
            assert(wanted.take(i + 1).drop_last() =~= wanted.take(i as int));
        }
        match lookup(&chunks, asked[i].as_str()) {
            Some(found) => {
                data.push(found);
            },
            None => {
                missing.push(asked[i].clone());
            },
        }
        i = i + 1;
    }
    proof {
        assert(wanted.take(asked@.len() as int) =~= wanted);
    }
    if missing.len() > 0 {
        let names = crate::text::join(&missing, ", ");
        return Err(
            SprError::new(
                ErrorKind::Backend,
                concat(
                    "jujutsu log output did not contain change IDs for all commit IDs: ",
                    names.as_str(),
                ),
            ),
        );
    }
    Ok(data)
}

/// The arguments that give a change a new description, in the form that is
/// used where the repository is found beside the object store.
pub open spec fn spec_describe_change_args(change_id: Seq<char>, message: Seq<char>) -> Seq<
    Seq<char>,
> {
    seq!["describe"@, change_id, "--message"@, message]
}

/// The calls of the tool that bring the descriptions of changes up to date:
/// for each commit whose message differs from the description of its change,
/// in the order of the commits, the arguments that give the change that
/// message.
pub open spec fn spec_describe_calls(
    messages: Seq<Seq<char>>,
    data: Seq<JujutsuChangeData>,
) -> Seq<Seq<Seq<char>>>
    decreases messages.len(),
{
    if messages.len() == 0 || data.len() != messages.len() {
        Seq::<Seq<Seq<char>>>::empty()
    } else {
        let rest = spec_describe_calls(messages.drop_last(), data.drop_last());
        if messages.last() != data.last().description@ {
            rest.push(spec_describe_change_args(data.last().change_id@, messages.last()))
        } else {
            rest
        }
    }
}

/// The calls of the tool that bring the descriptions of changes up to date.
///
/// `messages` holds the text written from the sections of each commit, and
/// `data` what the tool knows of each commit, both in the order of the
/// commits.
pub fn describe_calls(messages: &Vec<String>, data: &Vec<JujutsuChangeData>) -> (r: Vec<
    Vec<String>,
>)
    ensures
        r@.len() == spec_describe_calls(messages.deep_view(), data@).len(),
        forall|i: int|
            0 <= i < r@.len() ==> (#[trigger] r@[i]).deep_view() == spec_describe_calls(
                messages.deep_view(),
                data@,
            )[i],
{
    let mut calls: Vec<Vec<String>> = Vec::new();
    if messages.len() != data.len() {
        return calls;
    }
    let ghost texts = messages.deep_view();
    let mut i: usize = 0;
    while i < messages.len()
        invariant
            i <= messages.len(),
            messages@.len() == data@.len(),
            texts == messages.deep_view(),
            calls@.len() == spec_describe_calls(texts.take(i as int), data@.take(i as int)).len(),
            forall|k: int|
                0 <= k < calls@.len() ==> (#[trigger] calls@[k]).deep_view()
                    == spec_describe_calls(texts.take(i as int), data@.take(i as int))[k],
        decreases messages.len() - i,
    {
        proof {
            assert(texts.take(i + 1).drop_last() =~= texts.take(i as int));
            assert(data@.take(i + 1).drop_last() =~= data@.take(i as int));
        }
        if !crate::text::str_eq(messages[i].as_str(), data[i].description.as_str()) {
            let mut args: Vec<String> = Vec::new();
            args.push(String::from_str("describe"));
            args.push(data[i].change_id.clone());
            args.push(String::from_str("--message"));
            args.push(messages[i].clone());
            calls.push(args);
        }
        i = i + 1;
    }
    proof {
        assert(texts.take(messages@.len() as int) =~= texts);
        assert(data@.take(messages@.len() as int) =~= data@);
    }
    calls
}

} // verus!
