//! Synchronization of a linear stack of local commits with one pull request
//! per commit.
//!
//! Each commit of a stack is shown on the hosting service as a pull request of
//! its own. A pull request compares two references, while a commit of a stack
//! differs from its parent, which may be another commit of the stack. The
//! engine decides, commit by commit, whether the pull request is stale, which
//! commits have to be made and which references pushed, so that the pull
//! request shows the change of the commit and nothing else.
//!
//! * [`sync`] holds the decision itself, as functions of plain values, and
//!   the laws that it obeys.
//! * [`commands::diff`] takes one commit through a pass: it reads the object
//!   store, decides, makes the new commits, and says what to push and what to
//!   ask of the service.
//! * [`git`] and [`jj`] are the two backends and [`backend`] what the engine
//!   asks of either. [`history`] holds the search for the trunk commit that a
//!   commit is based on, and [`companion`] what is asked of the companion tool
//!   and how its answers are read.
//! * [`repo`] wraps the object store, which belongs to `git2`; what is taken
//!   on trust of that crate is stated there.
//! * [`oid`], [`person`], [`commit`], [`message`], [`github`], [`config`],
//!   [`error`] and [`text`] hold the values that the others work on.
//!
//! The messages of local commits are written back at the end of a pass
//! where the pass has changed the message of a commit, and not otherwise;
//! this holds of both backends. The overlay backend then has the companion
//! tool write the messages that were changed. The native backend makes the
//! commits anew from the first whose message differs from the text written
//! from its sections.
//!
//! The library asks nothing of the operator and does not talk to the
//! network, and it does not run the companion tool or the program that
//! pushes: the caller does, with the arguments that the library makes, and
//! hands the answers back. What the object store runs on its own account,
//! the program that signs a commit and the hooks of the repository, it runs
//! from within the calls that [`repo`] wraps.

pub mod backend;
pub mod commands;
pub mod commit;
pub mod companion;
pub mod config;
pub mod error;
pub mod git;
pub mod github;
pub mod history;
pub mod jj;
pub mod message;
pub mod oid;
pub mod person;
pub mod repo;
pub mod store_types;
pub mod sync;
pub mod text;
