//! The people that a commit names: its author and its committer.

use vstd::prelude::*;

verus! {

/// A person as a commit names one. The view of a person is the pair of the
/// name and the address.
#[derive(Debug)]
pub struct Person {
    pub name: String,
    /// The address for electronic mail.
    pub email: String,
}

impl View for Person {
    type V = (Seq<char>, Seq<char>);

    open spec fn view(&self) -> (Seq<char>, Seq<char>) {
        (self.name@, self.email@)
    }
}

/// Whether a character is taken from the ends of a name or an address when a
/// commit is written: a space, a control character, or one of the marks that
/// set a name and an address apart.
pub open spec fn is_crud(c: char) -> bool {
    c as u32 <= 32 || c == ',' || c == ':' || c == ';' || c == '<' || c == '>' || c == '"' || c
        == '\\' || c == '\''
}

/// A name or an address as a commit records it: without the characters at
/// either end that are taken from it.
pub open spec fn spec_trimmed(text: Seq<char>) -> Seq<char>
    decreases text.len(),
{
    if text.len() > 0 && is_crud(text[0]) {
        spec_trimmed(text.skip(1))
    } else if text.len() > 0 && is_crud(text.last()) {
        spec_trimmed(text.drop_last())
    } else {
        text
    }
}

/// A person as a commit records them.
pub open spec fn recorded(person: (Seq<char>, Seq<char>)) -> (Seq<char>, Seq<char>) {
    (spec_trimmed(person.0), spec_trimmed(person.1))
}

/// Whether a person can be written into a commit: neither the name nor the
/// address holds a line end.
pub open spec fn is_one_line(person: (Seq<char>, Seq<char>)) -> bool {
    !person.0.contains('\n') && !person.1.contains('\n')
}

/// Whether a text holds no line end.
fn without_line_end(text: &str) -> (r: bool)
    ensures
        r == !text@.contains('\n'),
{
    for c in iter: text.chars()
        invariant
            iter.seq() == text@,
            forall|k: int| 0 <= k < iter.index() ==> text@[k] != '\n',
    {
        if c == '\n' {
            assert(text@[iter.index() as int] == '\n');
            return false;
        }
    }
    true
}

impl Person {
    /// Whether the person can be written into a commit: neither the name
    /// nor the address holds a line end.
    pub fn is_one_line(&self) -> (r: bool)
        ensures
            r == is_one_line(self@),
    {
        without_line_end(self.name.as_str()) && without_line_end(self.email.as_str())
    }
}

/// The committer of a commit that stands for a local commit: the operator,
/// and the committer of the local commit where the settings name no
/// operator.
pub open spec fn spec_committer(
    original_committer: (Seq<char>, Seq<char>),
    operator: Option<(Seq<char>, Seq<char>)>,
) -> (Seq<char>, Seq<char>) {
    match operator {
        Some(person) => person,
        None => original_committer,
    }
}

/// The author and the committer of a commit that stands for a local commit,
/// in this order. The author is the author of the local commit. The committer
/// is the operator, and the committer of the local commit where the settings
/// name no operator.
pub fn authorship(
    original_author: Person,
    original_committer: Person,
    operator: Option<Person>,
) -> (r: (Person, Person))
    ensures
        r.0 == original_author,
        r.1 == (match operator {
            Some(person) => person,
            None => original_committer,
        }),
        r.1@ == spec_committer(
            original_committer@,
            match operator {
                Some(person) => Some(person@),
                None => None,
            },
        ),
{
    match operator {
        Some(person) => (original_author, person),
        None => (original_author, original_committer),
    }
}

} // verus!
