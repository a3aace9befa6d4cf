//! A poll with a small fixed set of options and one vote per voter.
//!
//! A [`Poll`] is created once from a name, a description and up to five
//! option labels, and from then on changes only by accepted votes. Every
//! transition is specified against the mathematical model in [`model`], and
//! [`laws`] proves what holds across transitions.

pub mod error;
pub mod laws;
pub mod model;
pub mod poll;
pub mod voter;

pub use error::FlutterVoteError;
pub use poll::{Poll, PollOption};
pub use voter::VoterKey;
