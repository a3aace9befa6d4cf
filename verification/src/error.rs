//! The reasons for which a transition of a poll is refused.

use vstd::prelude::*;

verus! {

/// Why a poll refused to be created or to take a vote.
///
/// A refused transition leaves the poll exactly as it was.
#[derive(Debug, Clone, Copy, PartialEq, Eq, Structural)]
pub enum FlutterVoteError {
    /// The poll is flagged as finished.
    PollAlreadyFinished,
    /// The option id of the vote is not carried by exactly one option.
    PollOptionNotFound,
    /// The voter is already in the poll's list of voters.
    UserAlreadyVoted,
    /// The name has more than [`crate::model::MAX_NAME_LEN`] characters.
    NameTooLong,
    /// The description has more than [`crate::model::MAX_DESCRIPTION_LEN`] characters.
    DescriptionTooLong,
    /// More than [`crate::model::MAX_OPTIONS`] option labels were given.
    TooManyOptions,
}

impl FlutterVoteError {
    /// The sentence that `message` returns, as a sequence of characters.
    pub open spec fn message_text(self) -> Seq<char> {
        match self {
            FlutterVoteError::PollAlreadyFinished => "Poll is already finished"@,
            FlutterVoteError::PollOptionNotFound => "Poll option not found"@,
            FlutterVoteError::UserAlreadyVoted => "User has already voted"@,
            FlutterVoteError::NameTooLong => "Poll name exceeds 50 characters"@,
            FlutterVoteError::DescriptionTooLong => "Poll description exceeds 200 characters"@,
            FlutterVoteError::TooManyOptions => "Too many options provided (max 5)"@,
        }
    }

    /// A sentence for the user that says what went wrong.
    pub fn message(&self) -> (text: String)
        ensures
            text@ == self.message_text(),
    {
        match self {
            FlutterVoteError::PollAlreadyFinished => "Poll is already finished".to_owned(),
            FlutterVoteError::PollOptionNotFound => "Poll option not found".to_owned(),
            FlutterVoteError::UserAlreadyVoted => "User has already voted".to_owned(),
            FlutterVoteError::NameTooLong => "Poll name exceeds 50 characters".to_owned(),
            FlutterVoteError::DescriptionTooLong => "Poll description exceeds 200 characters".to_owned(),
            FlutterVoteError::TooManyOptions => "Too many options provided (max 5)".to_owned(),
        }
    }
}

} // verus!
