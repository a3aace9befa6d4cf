//! The poll as it is stored, and the two operations that change it.

use vstd::prelude::*;
use vstd::string::StrSliceExecFns;
use crate::error::FlutterVoteError;
use crate::laws::{lemma_created_poll_is_wf, lemma_vote_keeps_wf};
use crate::model::{
    count_with_id, credit, credit_all, fresh_options, OptionView, PollView, MAX_DESCRIPTION_LEN,
    MAX_NAME_LEN, MAX_OPTIONS,
};
use crate::voter::VoterKey;

verus! {

/// One choice of a poll.
#[derive(Debug, Clone)]
pub struct PollOption {
    /// What the choice is called.
    pub label: String,
    /// The number by which a vote names the choice: 1 for the first option
    /// of a poll, 2 for the second, and so on.
    pub id: u8,
    /// How many votes the choice has.
    pub votes: u32,
}

impl View for PollOption {
    type V = OptionView;

    open spec fn view(&self) -> OptionView {
        OptionView { label: self.label@, id: self.id as nat, votes: self.votes as nat }
    }
}

/// A poll: its texts, its options with their votes, and who has voted.
#[derive(Debug, Clone)]
pub struct Poll {
    /// Set on a poll that takes no more votes. Creation clears it and
    /// nothing sets it.
    pub finished: bool,
    pub name: String,
    pub description: String,
    pub options: Vec<PollOption>,
    /// The voters, in the order of their votes.
    pub voters: Vec<VoterKey>,
}

/// The texts of the strings, in the same order.
pub open spec fn texts(strings: Seq<String>) -> Seq<Seq<char>> {
    strings.map_values(|s: String| s@)
}

impl View for Poll {
    type V = PollView;

    open spec fn view(&self) -> PollView {
        PollView {
            finished: self.finished,
            name: self.name@,
            description: self.description@,
            options: self.options@.map_values(|o: PollOption| o@),
            voters: self.voters@.map_values(|k: VoterKey| k@),
        }
    }
}

impl Poll {
    /// Bytes set aside for the stored form of a poll: 8 for the tag of the
    /// record, 1 for the flag, 4 + 50 for the name, 4 + 200 for the
    /// description, 4 + 5 * (4 + 50 + 1 + 4) for five options with labels of
    /// fifty bytes, and 4 + 50 * 32 for fifty voters.
    pub const MAXIMUM_SIZE: usize = 2170;

    /// A record in which no poll has been created yet.
    pub fn new() -> (poll: Poll)
        ensures
            poll@ == PollView::blank(),
            poll@.wf(),
    {
        let poll = Poll {
            finished: false,
            name: String::new(),
            description: String::new(),
            options: Vec::new(),
            voters: Vec::new(),
        };
        assert(poll@.options =~= Seq::empty());
        assert(poll@.voters =~= Seq::empty());
        poll
    }

    /// How many options carry the id.
    pub fn options_with_id(&self, id: u8) -> (count: usize)
        ensures
            count == count_with_id(self@.options, id as nat),
    {
        let mut count: usize = 0;
        let mut i: usize = 0;
        while i < self.options.len()
            invariant
                i <= self.options.len(),
                count <= i,
                count == count_with_id(self@.options.take(i as int), id as nat),
            decreases self.options.len() - i,
        {
            assert(self@.options.take(i + 1).drop_last() =~= self@.options.take(i as int));
            if self.options[i].id == id {
                count += 1;
            }
            i += 1;
        }
        assert(self@.options.take(i as int) =~= self@.options);
        count
    }

    /// Whether the voter has voted in this poll.
    pub fn has_voted(&self, voter: &VoterKey) -> (voted: bool)
        ensures
            voted == self@.has_voted(voter@),
    {
        let mut i: usize = 0;
        while i < self.voters.len()
            invariant
                i <= self.voters.len(),
                forall|j: int| 0 <= j < i ==> self@.voters[j] != voter@,
            decreases self.voters.len() - i,
        {
            if self.voters[i] == *voter {
                assert(self@.voters[i as int] == voter@);
                return true;
            }
            i += 1;
        }
        false
    }

    /// Creates the poll in this record.
    ///
    /// Refused, with the record left as it was, if the record is finished,
    /// the name has more than 50 characters, the description has more than
    /// 200, or there are more than 5 labels; the first of these that holds
    /// gives the error. Otherwise the record gets the name and the
    /// description, one option for each label, in the labels' order, with
    /// the ids 1, 2, 3, ... and no votes, and an empty list of voters.
    pub fn init(&mut self, name: String, description: String, options: Vec<String>) -> (res: Result<
        (),
        FlutterVoteError,
    >)
        ensures
            match res {
                Ok(()) => old(self)@.create(name@, description@, texts(options@)) == Ok::<
                    PollView,
                    FlutterVoteError,
                >(final(self)@),
                Err(e) => old(self)@.create(name@, description@, texts(options@)) == Err::<
                    PollView,
                    FlutterVoteError,
                >(e) && *final(self) == *old(self),
            },
            res is Ok ==> final(self)@.wf(),
    {
        if self.finished {
            return Err(FlutterVoteError::PollAlreadyFinished);
        }
        if name.as_str().unicode_len() > MAX_NAME_LEN {
            return Err(FlutterVoteError::NameTooLong);
        }
        if description.as_str().unicode_len() > MAX_DESCRIPTION_LEN {
            return Err(FlutterVoteError::DescriptionTooLong);
        }
        if options.len() > MAX_OPTIONS {
            return Err(FlutterVoteError::TooManyOptions);
        }
        let ghost labels = texts(options@);
        let mut numbered: Vec<PollOption> = Vec::new();
        let mut c: u8 = 0;
        for label in it: options
            invariant
                it.seq().len() <= MAX_OPTIONS,
                texts(it.seq()) == labels,
                c == it.index(),
                numbered@.len() == it.index(),
                forall|j: int|
                    0 <= j < numbered@.len() ==> (#[trigger] numbered@[j])@ == (OptionView {
                        label: labels[j],
                        id: (j + 1) as nat,
                        votes: 0,
                    }),
        {
            c += 1;
            numbered.push(PollOption { label, id: c, votes: 0 });
        }
        proof {
            lemma_created_poll_is_wf(self@, name@, description@, labels);
        }
        self.name = name;
        self.description = description;
        self.options = numbered;
        self.voters = Vec::new();
        self.finished = false;
        assert(self@.options =~= fresh_options(labels));
        assert(self@.voters =~= Seq::empty());
        Ok(())
    }

    /// Takes the voter's vote for the option with the given id.
    ///
    /// Refused, with the poll left as it was, if the poll is finished, if
    /// the id is not carried by exactly one option, or if the voter has
    /// voted before; the first of these that holds gives the error.
    /// Otherwise the voter is added after the others, and the option gets
    /// one vote more; nothing else changes.
    ///
    /// A counter holds at most `u32::MAX` votes: the vote must not be one
    /// that would be accepted for an option whose counter is already there.
    pub fn vote(&mut self, vote_id: u8, voter_key: VoterKey) -> (res: Result<(), FlutterVoteError>)
        requires
            old(self)@.cast_vote(vote_id as nat, voter_key@) is Ok ==> old(self)@.room_for_vote(
                vote_id as nat,
            ),
        ensures
            match res {
                Ok(()) => old(self)@.cast_vote(vote_id as nat, voter_key@) == Ok::<
                    PollView,
                    FlutterVoteError,
                >(final(self)@),
                Err(e) => old(self)@.cast_vote(vote_id as nat, voter_key@) == Err::<
                    PollView,
                    FlutterVoteError,
                >(e) && *final(self) == *old(self),
            },
            old(self)@.wf() ==> final(self)@.wf(),
    {
        if self.finished {
            return Err(FlutterVoteError::PollAlreadyFinished);
        }
        if self.options_with_id(vote_id) != 1 {
            return Err(FlutterVoteError::PollOptionNotFound);
        }
        if self.has_voted(&voter_key) {
            return Err(FlutterVoteError::UserAlreadyVoted);
        }
        let ghost before = self@;
        proof {
            if before.wf() {
                lemma_vote_keeps_wf(before, vote_id as nat, voter_key@);
            }
        }
        self.voters.push(voter_key);
        assert(self@.voters =~= before.voters.push(voter_key@));
        let mut i: usize = 0;
        while i < self.options.len()
            invariant
                i <= self.options.len(),
                self.finished == before.finished,
                self.name@ == before.name,
                self.description@ == before.description,
                self@.voters == before.voters.push(voter_key@),
                self.options@.len() == before.options.len(),
                before.room_for_vote(vote_id as nat),
                forall|j: int|
                    0 <= j < i ==> (#[trigger] self.options@[j])@ == credit(
                        before.options[j],
                        vote_id as nat,
                    ),
                forall|j: int|
                    i <= j < self.options@.len() ==> (#[trigger] self.options@[j])@
                        == before.options[j],
            decreases self.options.len() - i,
        {
            if self.options[i].id == vote_id {
                assert(before.options[i as int].id == vote_id as nat);
                self.options[i].votes += 1;
            }
            i += 1;
        }
        assert(self@.options =~= credit_all(before.options, vote_id as nat));
        Ok(())
    }
}

} // verus!
