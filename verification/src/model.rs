//! The mathematical model of a poll, and its two transitions.
//!
//! A poll is modelled by a [`PollView`]: plain sequences and natural
//! numbers, with no limits of machine integers. Creation and vote-casting
//! are total functions on that model which return either the next state or
//! the reason of the refusal; the executable code in [`crate::poll`] is
//! specified against them.

use vstd::prelude::*;
use crate::error::FlutterVoteError;

verus! {

/// Most characters a poll's name may have.
pub const MAX_NAME_LEN: usize = 50;

/// Most characters a poll's description may have.
pub const MAX_DESCRIPTION_LEN: usize = 200;

/// Most options a poll may offer.
pub const MAX_OPTIONS: usize = 5;

/// Most characters for which the stored form of an option's label has room.
pub const MAX_LABEL_LEN: usize = 50;

/// One choice of a poll: its label, its id and the votes it has so far.
pub struct OptionView {
    pub label: Seq<char>,
    pub id: nat,
    pub votes: nat,
}

/// The state of a poll.
pub struct PollView {
    pub finished: bool,
    pub name: Seq<char>,
    pub description: Seq<char>,
    pub options: Seq<OptionView>,
    /// Who has voted, in the order in which the votes came.
    pub voters: Seq<Seq<u8>>,
}

/// The votes of all the options together.
pub open spec fn total_votes(options: Seq<OptionView>) -> nat
    decreases options.len(),
{
    if options.len() == 0 {
        0
    } else {
        total_votes(options.drop_last()) + options.last().votes
    }
}

/// How many of the options carry the id.
pub open spec fn count_with_id(options: Seq<OptionView>, id: nat) -> nat
    decreases options.len(),
{
    if options.len() == 0 {
        0
    } else {
        count_with_id(options.drop_last(), id) + if options.last().id == id {
            1nat
        } else {
            0nat
        }
    }
}

/// The option with one vote more if it carries the id, and as it is if not.
pub open spec fn credit(option: OptionView, id: nat) -> OptionView {
    if option.id == id {
        OptionView { label: option.label, id: option.id, votes: option.votes + 1 }
    } else {
        option
    }
}

/// The options after a vote for the id has been counted.
pub open spec fn credit_all(options: Seq<OptionView>, id: nat) -> Seq<OptionView> {
    options.map_values(|o: OptionView| credit(o, id))
}

/// The options made from the labels: in the labels' order, with the ids
/// 1, 2, 3, ... and no votes.
pub open spec fn fresh_options(labels: Seq<Seq<char>>) -> Seq<OptionView> {
    Seq::new(
        labels.len(),
        |i: int| OptionView { label: labels[i], id: (i + 1) as nat, votes: 0 },
    )
}

impl PollView {
    /// The record before a poll has been created in it: nothing in any field.
    pub open spec fn blank() -> PollView {
        PollView {
            finished: false,
            name: Seq::empty(),
            description: Seq::empty(),
            options: Seq::empty(),
            voters: Seq::empty(),
        }
    }

    /// The votes counted so far, over all options.
    pub open spec fn tally(self) -> nat {
        total_votes(self.options)
    }

    /// Exactly one option carries the id.
    pub open spec fn names_one_option(self, id: nat) -> bool {
        count_with_id(self.options, id) == 1
    }

    /// The voter is among those who have voted.
    pub open spec fn has_voted(self, voter: Seq<u8>) -> bool {
        self.voters.contains(voter)
    }

    /// What every transition keeps true of a poll:
    /// the texts and the number of options are within their limits, the
    /// option at position `i` has the id `i + 1`, no voter is listed twice,
    /// and there are as many votes as voters.
    pub open spec fn wf(self) -> bool {
        &&& self.name.len() <= MAX_NAME_LEN
        &&& self.description.len() <= MAX_DESCRIPTION_LEN
        &&& self.options.len() <= MAX_OPTIONS
        &&& forall|i: int| 0 <= i < self.options.len() ==> (#[trigger] self.options[i]).id == i + 1
        &&& self.voters.no_duplicates()
        &&& self.tally() == self.voters.len()
    }

    /// No label is longer than the stored form of an option has room for.
    /// Creation does not look at the labels, so this holds of a poll exactly
    /// when it held of the labels the poll was created from.
    pub open spec fn labels_fit(self) -> bool {
        forall|i: int| 0 <= i < self.options.len() ==> (#[trigger] self.options[i]).label.len() <= MAX_LABEL_LEN
    }

    /// Creation of a poll in this record.
    ///
    /// The checks are made in this order and the first that fails decides:
    /// the record is not finished, the name is short enough, the description
    /// is short enough, there are not too many labels. A poll that passes
    /// has the given texts, one option for each label, and no voters.
    pub open spec fn create(
        self,
        name: Seq<char>,
        description: Seq<char>,
        labels: Seq<Seq<char>>,
    ) -> Result<PollView, FlutterVoteError> {
        if self.finished {
            Err(FlutterVoteError::PollAlreadyFinished)
        } else if name.len() > MAX_NAME_LEN {
            Err(FlutterVoteError::NameTooLong)
        } else if description.len() > MAX_DESCRIPTION_LEN {
            Err(FlutterVoteError::DescriptionTooLong)
        } else if labels.len() > MAX_OPTIONS {
            Err(FlutterVoteError::TooManyOptions)
        } else {
            Ok(
                PollView {
                    finished: false,
                    name,
                    description,
                    options: fresh_options(labels),
                    voters: Seq::empty(),
                },
            )
        }
    }

    /// The poll after the voter's vote for the id has been taken: the voter
    /// comes last in the list, and what carries the id has one vote more.
    pub open spec fn with_vote(self, id: nat, voter: Seq<u8>) -> PollView {
        PollView {
            finished: self.finished,
            name: self.name,
            description: self.description,
            options: credit_all(self.options, id),
            voters: self.voters.push(voter),
        }
    }

    /// A voter's vote for the option with the given id.
    ///
    /// The checks are made in this order and the first that fails decides:
    /// the poll is not finished, exactly one option carries the id, the
    /// voter has not voted before.
    pub open spec fn cast_vote(self, id: nat, voter: Seq<u8>) -> Result<PollView, FlutterVoteError> {
        if self.finished {
            Err(FlutterVoteError::PollAlreadyFinished)
        } else if !self.names_one_option(id) {
            Err(FlutterVoteError::PollOptionNotFound)
        } else if self.has_voted(voter) {
            Err(FlutterVoteError::UserAlreadyVoted)
        } else {
            Ok(self.with_vote(id, voter))
        }
    }

    /// No option that carries the id has its counter at the most a counter
    /// can hold.
    pub open spec fn room_for_vote(self, id: nat) -> bool {
        forall|i: int|
            0 <= i < self.options.len() && (#[trigger] self.options[i]).id == id
                ==> self.options[i].votes < u32::MAX
    }
}

} // verus!
