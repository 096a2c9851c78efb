//! The structured form of a commit message.
//!
//! A message is an ordered mapping from named sections to their text. How the
//! text of a commit is cut into sections, and how sections are written out
//! again, is decided outside this library; the engine only reads and replaces
//! whole sections.

use vstd::prelude::*;

verus! {

/// The name of a section of a commit message, in the order in which sections
/// are kept.
#[derive(Debug, Clone, Copy, PartialEq, Eq, Structural)]
pub enum MessageSection {
    Title,
    Description,
    TestPlan,
    /// Who is asked to look at the change: names separated by commas.
    Reviewers,
    ReviewedBy,
    /// The canonical address of the pull request, once there is one.
    PullRequest,
}

/// The sections of one commit message.
#[derive(Debug)]
pub struct MessageSectionsMap {
    pub title: Option<String>,
    pub description: Option<String>,
    pub test_plan: Option<String>,
    pub reviewers: Option<String>,
    pub reviewed_by: Option<String>,
    pub pull_request: Option<String>,
}

/// The text of an optional section, as a sequence of characters.
pub open spec fn text_view(text: Option<String>) -> Option<Seq<char>> {
    match text {
        Some(s) => Some(s@),
        None => None,
    }
}

impl MessageSectionsMap {
    /// The text that the message holds for `section`, if any.
    pub open spec fn spec_get(&self, section: MessageSection) -> Option<Seq<char>> {
        match section {
            MessageSection::Title => text_view(self.title),
            MessageSection::Description => text_view(self.description),
            MessageSection::TestPlan => text_view(self.test_plan),
            MessageSection::Reviewers => text_view(self.reviewers),
            MessageSection::ReviewedBy => text_view(self.reviewed_by),
            MessageSection::PullRequest => text_view(self.pull_request),
        }
    }
}

impl View for MessageSectionsMap {
    type V = Map<MessageSection, Seq<char>>;

    open spec fn view(&self) -> Map<MessageSection, Seq<char>> {
        Map::new(
            |section: MessageSection| self.spec_get(section) is Some,
            |section: MessageSection| self.spec_get(section)->0,
        )
    }
}

impl MessageSectionsMap {
    /// A message without sections.
    pub fn new() -> (r: MessageSectionsMap)
        ensures
            r@ == Map::<MessageSection, Seq<char>>::empty(),
    {
        let r = MessageSectionsMap {
            title: None,
            description: None,
            test_plan: None,
            reviewers: None,
            reviewed_by: None,
            pull_request: None,
        };
        r
    }

    /// The text of `section`, if the message has that section.
    pub fn get(&self, section: MessageSection) -> (r: Option<&String>)
        ensures
            r is Some <==> self@.contains_key(section),
            r matches Some(text) ==> text@ == self@[section],
    {
        match section {
            MessageSection::Title => self.title.as_ref(),
            MessageSection::Description => self.description.as_ref(),
            MessageSection::TestPlan => self.test_plan.as_ref(),
            MessageSection::Reviewers => self.reviewers.as_ref(),
            MessageSection::ReviewedBy => self.reviewed_by.as_ref(),
            MessageSection::PullRequest => self.pull_request.as_ref(),
        }
    }

    /// Whether the message has `section`.
    pub fn contains_key(&self, section: MessageSection) -> (r: bool)
        ensures
            r == self@.contains_key(section),
    {
        self.get(section).is_some()
    }

    /// Sets the text of `section`, replacing what was there.
    pub fn insert(&mut self, section: MessageSection, text: String)
        ensures
            final(self)@ == old(self)@.insert(section, text@),
    {
        match section {
            MessageSection::Title => {
                self.title = Some(text);
            },
            MessageSection::Description => {
                self.description = Some(text);
            },
            MessageSection::TestPlan => {
                self.test_plan = Some(text);
            },
            MessageSection::Reviewers => {
                self.reviewers = Some(text);
            },
            MessageSection::ReviewedBy => {
                self.reviewed_by = Some(text);
            },
            MessageSection::PullRequest => {
                self.pull_request = Some(text);
            },
        }
    }

    /// Takes `section` out of the message.
    pub fn remove(&mut self, section: MessageSection)
        ensures
            final(self)@ == old(self)@.remove(section),
    {
        match section {
            MessageSection::Title => {
                self.title = None;
            },
            MessageSection::Description => {
                self.description = None;
            },
            MessageSection::TestPlan => {
                self.test_plan = None;
            },
            MessageSection::Reviewers => {
                self.reviewers = None;
            },
            MessageSection::ReviewedBy => {
                self.reviewed_by = None;
            },
            MessageSection::PullRequest => {
                self.pull_request = None;
            },
        }
    }
}

} // verus!
