//! What holds of polls across their transitions, proved over the model.

use vstd::prelude::*;
use crate::error::FlutterVoteError;
use crate::model::{
    count_with_id, credit, credit_all, fresh_options, total_votes, OptionView, PollView,
    MAX_DESCRIPTION_LEN, MAX_LABEL_LEN, MAX_NAME_LEN, MAX_OPTIONS,
};

verus! {

/// Counting a vote for an id adds to the total one vote for each option
/// that carries the id.
pub proof fn lemma_credit_adds_matches(options: Seq<OptionView>, id: nat)
    ensures
        total_votes(credit_all(options, id)) == total_votes(options) + count_with_id(options, id),
    decreases options.len(),
{
    if options.len() > 0 {
        lemma_credit_adds_matches(options.drop_last(), id);
        assert(credit_all(options, id).drop_last() =~= credit_all(options.drop_last(), id));
    }
}

/// Counting a vote changes no id: as many options carry a given id after
/// it as before.
pub proof fn lemma_credit_keeps_ids(options: Seq<OptionView>, id: nat, other: nat)
    ensures
        count_with_id(credit_all(options, id), other) == count_with_id(options, other),
    decreases options.len(),
{
    if options.len() > 0 {
        lemma_credit_keeps_ids(options.drop_last(), id, other);
        assert(credit_all(options, id).drop_last() =~= credit_all(options.drop_last(), id));
    }
}

/// No option carries the id exactly when the count of those that do is 0.
pub proof fn lemma_count_zero(options: Seq<OptionView>, id: nat)
    ensures
        count_with_id(options, id) == 0 <==> forall|i: int|
            0 <= i < options.len() ==> (#[trigger] options[i]).id != id,
    decreases options.len(),
{
    if options.len() > 0 {
        let front = options.drop_last();
        lemma_count_zero(front, id);
        assert(forall|i: int| 0 <= i < front.len() ==> front[i] == options[i]);
        if count_with_id(options, id) == 0 {
            assert forall|i: int| 0 <= i < options.len() implies (#[trigger] options[i]).id != id by {
                if i < front.len() {
                    assert(front[i].id != id);
                }
            }
        }
    }
}

/// Where exactly one option carries the id, there is one position that
/// holds it, and no other position does.
pub proof fn lemma_count_one(options: Seq<OptionView>, id: nat) -> (at: int)
    requires
        count_with_id(options, id) == 1,
    ensures
        0 <= at < options.len(),
        options[at].id == id,
        forall|i: int| 0 <= i < options.len() && (#[trigger] options[i]).id == id ==> i == at,
    decreases options.len(),
{
    let front = options.drop_last();
    assert(forall|i: int| 0 <= i < front.len() ==> front[i] == options[i]);
    if options.last().id == id {
        lemma_count_zero(front, id);
        options.len() - 1
    } else {
        lemma_count_one(front, id)
    }
}

/// Options made from labels have no votes.
pub proof fn lemma_fresh_options_have_no_votes(labels: Seq<Seq<char>>)
    ensures
        total_votes(fresh_options(labels)) == 0,
    decreases labels.len(),
{
    if labels.len() > 0 {
        lemma_fresh_options_have_no_votes(labels.drop_last());
        assert(fresh_options(labels).drop_last() =~= fresh_options(labels.drop_last()));
    }
}

/// A poll that has just been created is well formed, whatever record it was
/// created in.
pub proof fn lemma_created_poll_is_wf(
    record: PollView,
    name: Seq<char>,
    description: Seq<char>,
    labels: Seq<Seq<char>>,
)
    requires
        record.create(name, description, labels) is Ok,
    ensures
        record.create(name, description, labels)->Ok_0.wf(),
{
    lemma_fresh_options_have_no_votes(labels);
}

/// An accepted vote keeps a well-formed poll well formed: in particular
/// there are still as many votes as voters, and no voter is listed twice.
pub proof fn lemma_vote_keeps_wf(poll: PollView, id: nat, voter: Seq<u8>)
    requires
        poll.wf(),
        poll.cast_vote(id, voter) is Ok,
    ensures
        poll.cast_vote(id, voter)->Ok_0.wf(),
        poll.cast_vote(id, voter)->Ok_0.tally() == poll.tally() + 1,
        poll.cast_vote(id, voter)->Ok_0.voters.len() == poll.voters.len() + 1,
{
    let next = poll.with_vote(id, voter);
    lemma_credit_adds_matches(poll.options, id);
    assert forall|i: int| 0 <= i < next.options.len() implies (#[trigger] next.options[i]).id == i
        + 1 by {
        assert(next.options[i] == credit(poll.options[i], id));
    }
    assert forall|i: int, j: int|
        0 <= i < next.voters.len() && 0 <= j < next.voters.len() && i != j implies next.voters[i]
        != next.voters[j] by {
        if i == poll.voters.len() {
            assert(poll.voters[j] == next.voters[j]);
        } else if j == poll.voters.len() {
            assert(poll.voters[i] == next.voters[i]);
        }
    }
}

/// Creation refuses a name of more than fifty characters with
/// `NameTooLong`, whatever the description and the labels are, unless the
/// record is finished; a name of fifty characters or fewer is never the
/// reason of a refusal.
pub proof fn lemma_name_limit(
    record: PollView,
    name: Seq<char>,
    description: Seq<char>,
    labels: Seq<Seq<char>>,
)
    requires
        !record.finished,
    ensures
        name.len() > MAX_NAME_LEN <==> record.create(name, description, labels) == Err::<
            PollView,
            FlutterVoteError,
        >(FlutterVoteError::NameTooLong),
        name.len() <= MAX_NAME_LEN && description.len() <= MAX_DESCRIPTION_LEN && labels.len()
            <= MAX_OPTIONS ==> record.create(
            name,
            description,
            labels,
        ) is Ok,
{
}

/// Creation refuses more than five labels with `TooManyOptions` where
/// nothing else is wrong, and with five or fewer it gives the option at
/// position `i` the label at position `i`, the id `i + 1` and no votes.
pub proof fn lemma_option_limit(
    record: PollView,
    name: Seq<char>,
    description: Seq<char>,
    labels: Seq<Seq<char>>,
)
    requires
        !record.finished,
        name.len() <= MAX_NAME_LEN,
        description.len() <= MAX_DESCRIPTION_LEN,
    ensures
        labels.len() > MAX_OPTIONS ==> record.create(name, description, labels) == Err::<
            PollView,
            FlutterVoteError,
        >(FlutterVoteError::TooManyOptions),
        labels.len() <= MAX_OPTIONS ==> {
            let created = record.create(name, description, labels);
            &&& created is Ok
            &&& created->Ok_0.options.len() == labels.len()
            &&& forall|i: int|
                0 <= i < labels.len() ==> (#[trigger] created->Ok_0.options[i]) == (OptionView {
                    label: labels[i],
                    id: (i + 1) as nat,
                    votes: 0,
                })
        },
{
}

/// Creation takes the labels as they are: the labels of a created poll
/// fit their stored form exactly when the labels it was created from have
/// fifty characters at most.
pub proof fn lemma_creation_keeps_labels(
    record: PollView,
    name: Seq<char>,
    description: Seq<char>,
    labels: Seq<Seq<char>>,
)
    requires
        record.create(name, description, labels) is Ok,
    ensures
        record.create(name, description, labels)->Ok_0.labels_fit() <==> forall|i: int|
            0 <= i < labels.len() ==> (#[trigger] labels[i]).len() <= MAX_LABEL_LEN,
{
    let created = record.create(name, description, labels)->Ok_0;
    if created.labels_fit() {
        assert forall|i: int| 0 <= i < labels.len() implies (#[trigger] labels[i]).len()
            <= MAX_LABEL_LEN by {
            assert(created.options[i].label == labels[i]);
        }
    }
}

/// An accepted vote changes no label: the labels fit their stored form
/// after it exactly when they did before.
pub proof fn lemma_vote_keeps_labels(poll: PollView, id: nat, voter: Seq<u8>)
    requires
        poll.cast_vote(id, voter) is Ok,
    ensures
        poll.cast_vote(id, voter)->Ok_0.labels_fit() <==> poll.labels_fit(),
{
    let next = poll.with_vote(id, voter);
    if poll.labels_fit() {
        assert forall|i: int| 0 <= i < next.options.len() implies (
        #[trigger] next.options[i]).label.len() <= MAX_LABEL_LEN by {
            assert(next.options[i] == credit(poll.options[i], id));
        }
    }
    if next.labels_fit() {
        assert forall|i: int| 0 <= i < poll.options.len() implies (
        #[trigger] poll.options[i]).label.len() <= MAX_LABEL_LEN by {
            assert(next.options[i] == credit(poll.options[i], id));
        }
    }
}

/// A vote for an id that no option carries is refused with
/// `PollOptionNotFound`, whoever casts it.
pub proof fn lemma_unknown_option_is_refused(poll: PollView, id: nat, voter: Seq<u8>)
    requires
        !poll.finished,
        forall|i: int| 0 <= i < poll.options.len() ==> (#[trigger] poll.options[i]).id != id,
    ensures
        poll.cast_vote(id, voter) == Err::<PollView, FlutterVoteError>(
            FlutterVoteError::PollOptionNotFound,
        ),
{
    lemma_count_zero(poll.options, id);
}

/// In a well-formed poll the ids that name exactly one option are
/// 1, 2, ..., up to the number of options.
pub proof fn lemma_ids_of_wf_poll(poll: PollView, id: nat)
    requires
        poll.wf(),
    ensures
        poll.names_one_option(id) <==> 1 <= id <= poll.options.len(),
{
    lemma_count_zero(poll.options, id);
    if 1 <= id <= poll.options.len() {
        assert(poll.options[id - 1].id == id);
        lemma_count_at_most_one(poll.options, id);
    } else if poll.names_one_option(id) {
        let at = lemma_count_one(poll.options, id);
    }
}

/// Where no two options share an id, at most one option carries a given id.
pub proof fn lemma_count_at_most_one(options: Seq<OptionView>, id: nat)
    requires
        forall|i: int, j: int|
            0 <= i < options.len() && 0 <= j < options.len() && i != j ==> options[i].id
                != options[j].id,
    ensures
        count_with_id(options, id) <= 1,
    decreases options.len(),
{
    if options.len() > 0 {
        let front = options.drop_last();
        assert(forall|i: int| 0 <= i < front.len() ==> front[i] == options[i]);
        lemma_count_at_most_one(front, id);
        if options.last().id == id {
            lemma_count_zero(front, id);
            assert forall|i: int| 0 <= i < front.len() implies (#[trigger] front[i]).id != id by {
                assert(options[i].id != options[options.len() - 1].id);
            }
        }
    }
}

/// An accepted vote adds the voter at the end of the list and one vote to
/// one option, the one that carries the id; every other option, and the
/// label and id of that one, stay as they were.
pub proof fn lemma_vote_touches_one_counter(poll: PollView, id: nat, voter: Seq<u8>) -> (at: int)
    requires
        poll.cast_vote(id, voter) is Ok,
    ensures
        0 <= at < poll.options.len(),
        poll.options[at].id == id,
        ({
            let next = poll.cast_vote(id, voter)->Ok_0;
            &&& next.voters == poll.voters.push(voter)
            &&& next.options.len() == poll.options.len()
            &&& next.options[at] == (OptionView {
                label: poll.options[at].label,
                id,
                votes: poll.options[at].votes + 1,
            })
            &&& forall|i: int|
                0 <= i < poll.options.len() && i != at ==> (#[trigger] next.options[i])
                    == poll.options[i]
            &&& next.finished == poll.finished
            &&& next.name == poll.name
            &&& next.description == poll.description
        }),
{
    lemma_count_one(poll.options, id)
}

/// A voter whose vote was accepted cannot vote again: a second vote
/// that names one option, the same or another, is refused with
/// `UserAlreadyVoted`.
pub proof fn lemma_second_vote_is_refused(poll: PollView, first: nat, second: nat, voter: Seq<u8>)
    requires
        poll.cast_vote(first, voter) is Ok,
        poll.names_one_option(second),
    ensures
        poll.cast_vote(first, voter)->Ok_0.cast_vote(second, voter) == Err::<
            PollView,
            FlutterVoteError,
        >(FlutterVoteError::UserAlreadyVoted),
{
    lemma_second_vote_never_counts(poll, first, second, voter);
}

/// A voter whose vote was accepted cannot vote again, whatever id the
/// second vote gives: it is refused with `PollOptionNotFound` if the id
/// does not name one option, and with `UserAlreadyVoted` if it does.
pub proof fn lemma_second_vote_never_counts(
    poll: PollView,
    first: nat,
    second: nat,
    voter: Seq<u8>,
)
    requires
        poll.cast_vote(first, voter) is Ok,
    ensures
        poll.cast_vote(first, voter)->Ok_0.cast_vote(second, voter) == Err::<
            PollView,
            FlutterVoteError,
        >(
            if poll.names_one_option(second) {
                FlutterVoteError::UserAlreadyVoted
            } else {
                FlutterVoteError::PollOptionNotFound
            },
        ),
{
    let next = poll.with_vote(first, voter);
    lemma_credit_keeps_ids(poll.options, first, second);
    assert(next.voters.last() == voter);
}

/// A vote as it is handed to a poll: the id of an option, and the voter.
pub struct Ballot {
    pub id: nat,
    pub voter: Seq<u8>,
}

/// The poll after the ballots have been cast one after the other, or the
/// reason for which the first refused ballot was refused.
pub open spec fn cast_all(poll: PollView, ballots: Seq<Ballot>) -> Result<
    PollView,
    FlutterVoteError,
>
    decreases ballots.len(),
{
    if ballots.len() == 0 {
        Ok(poll)
    } else {
        match cast_all(poll, ballots.drop_last()) {
            Ok(before_last) => before_last.cast_vote(ballots.last().id, ballots.last().voter),
            Err(e) => Err(e),
        }
    }
}

/// After any run of accepted votes a well-formed poll is well formed, with
/// one voter and one vote more for each ballot: the votes of all options
/// together are as many as the voters.
pub proof fn lemma_votes_conserve_tally(poll: PollView, ballots: Seq<Ballot>)
    requires
        poll.wf(),
        cast_all(poll, ballots) is Ok,
    ensures
        cast_all(poll, ballots)->Ok_0.wf(),
        cast_all(poll, ballots)->Ok_0.tally() == cast_all(poll, ballots)->Ok_0.voters.len(),
        cast_all(poll, ballots)->Ok_0.voters.len() == poll.voters.len() + ballots.len(),
        cast_all(poll, ballots)->Ok_0.tally() == poll.tally() + ballots.len(),
    decreases ballots.len(),
{
    if ballots.len() > 0 {
        lemma_votes_conserve_tally(poll, ballots.drop_last());
        let before_last = cast_all(poll, ballots.drop_last())->Ok_0;
        lemma_vote_keeps_wf(before_last, ballots.last().id, ballots.last().voter);
    }
}

/// A well-formed poll with fewer than `u32::MAX` voters has room for a
/// vote for any id.
pub proof fn lemma_wf_poll_has_room(poll: PollView, id: nat)
    requires
        poll.wf(),
        poll.voters.len() < u32::MAX,
    ensures
        poll.room_for_vote(id),
{
    assert forall|i: int| 0 <= i < poll.options.len() implies (#[trigger] poll.options[i]).votes
        <= total_votes(poll.options) by {
        lemma_votes_within_total(poll.options, i);
    }
}

/// No option has more votes than all the options together.
pub proof fn lemma_votes_within_total(options: Seq<OptionView>, i: int)
    requires
        0 <= i < options.len(),
    ensures
        options[i].votes <= total_votes(options),
    decreases options.len(),
{
    if i < options.len() - 1 {
        lemma_votes_within_total(options.drop_last(), i);
    }
}

} // verus!
