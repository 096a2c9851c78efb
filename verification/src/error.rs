//! Failures of a synchronization pass.
//!
//! Every failure has a kind, on which callers branch, and a chain of
//! human-readable messages: the cause first, each added context after it.

use vstd::prelude::*;

verus! {

/// What went wrong, as far as a caller needs to tell failures apart.
#[derive(Debug, Clone, Copy, PartialEq, Eq, Structural)]
pub enum ErrorKind {
    /// A commit message or a pull request is not in a state that can be
    /// submitted. Raised before anything is written.
    Validation,
    /// Replaying a commit produced overlapping changes.
    Conflict,
    /// The hosting service or the push transport failed.
    RemoteCommunication,
    /// The operator gave an empty answer to a required prompt.
    UserAbort,
    /// The version-control backend could not read or write an object or a
    /// reference, or its companion tool gave an answer that cannot be read.
    Backend,
}

/// A failure: its kind and its chain of messages.
#[derive(Debug)]
pub struct SprError {
    pub kind: ErrorKind,
    pub messages: Vec<String>,
}

/// The mathematical value of an [`SprError`].
pub ghost struct ErrorView {
    pub kind: ErrorKind,
    pub messages: Seq<Seq<char>>,
}

impl View for SprError {
    type V = ErrorView;

    open spec fn view(&self) -> ErrorView {
        ErrorView { kind: self.kind, messages: self.messages.deep_view() }
    }
}

/// The outcome of an operation that can fail.
pub type Result<T> = std::result::Result<T, SprError>;

impl SprError {
    /// A failure of the given kind with one message.
    pub fn new(kind: ErrorKind, message: String) -> (r: SprError)
        ensures
            r@.kind == kind,
            r@.messages == seq![message@],
    {
        let mut messages: Vec<String> = Vec::new();
        messages.push(message);
        let r = SprError { kind, messages };
        r
    }

    /// The kind of the failure.
    pub fn kind(&self) -> (r: ErrorKind)
        ensures
            r == self@.kind,
    {
        self.kind
    }

    /// The chain of messages, the cause first.
    pub fn messages(&self) -> (r: &Vec<String>)
        ensures
            r.deep_view() == self@.messages,
    {
        &self.messages
    }

    /// The failure in one line: the latest message of its chain.
    pub fn to_string(&self) -> (r: String)
        ensures
            self@.messages.len() > 0 ==> r@ == self@.messages.last(),
            self@.messages.len() == 0 ==> r@ == "unknown error"@,
    {
        let n = self.messages.len();
        if n > 0 {
            self.messages[n - 1].clone()
        } else {
            String::from_str("unknown error")
        }
    }

    /// Adds a message that says what the failed operation was part of.
    pub fn context(self, message: String) -> (r: SprError)
        ensures
            r@.kind == self@.kind,
            r@.messages == self@.messages.push(message@),
    {
        let mut e = self;
        e.messages.push(message);
        e
    }

    /// Replaces the latest message of the chain by `message`.
    pub fn reword(self, message: String) -> (r: SprError)
        ensures
            r@.kind == self@.kind,
            self@.messages.len() > 0 ==> r@.messages == self@.messages.drop_last().push(message@),
            self@.messages.len() == 0 ==> r@.messages == seq![message@],
    {
        let mut e = self;
        let _ = e.messages.pop();
        e.messages.push(message);
        e
    }
}

/// Records a second failure beside the outcome so far.
///
/// A success in `other` changes nothing. A failure in `other` becomes the
/// outcome if there was none, and otherwise adds its messages to the chain of
/// the failure that is already there, which keeps its kind.
pub fn add_error(result: &mut Result<()>, other: Result<()>)
    ensures
        other is Ok ==> *final(result) == *old(result),
        (other is Err && *old(result) is Ok) ==> *final(result) == other,
        (other is Err && *old(result) is Err) ==> {
            &&& *final(result) is Err
            &&& (*final(result))->Err_0@.kind == (*old(result))->Err_0@.kind
            &&& (*final(result))->Err_0@.messages == (*old(result))->Err_0@.messages
                + other->Err_0@.messages
        },
{
    match other {
        Ok(()) => {},
        Err(error) => {
            if result.is_ok() {
                *result = Err(error);
            } else {
                let mut messages = error.messages;
                match result {
                    Ok(_) => {},
                    Err(e) => {
                        e.messages.append(&mut messages);
                    },
                }
            }
        },
    }
}

} // verus!
