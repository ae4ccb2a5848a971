//! What holds of the ledger at all times, and what follows from it: each
//! voter's ballot is counted in exactly one slot of its poll, and no
//! operation changes that.
use crate::contract::{
    all_polls_answer, close_poll_outcome, create_poll_outcome, execute_outcome,
    instantiate_outcome, may_close, poll_answer, vote_fits, vote_outcome,
};
use crate::error::ContractError;
use crate::host::Response;
use crate::ledger::{bytes_before, id_before, is_listing, lists_all, Ledger};
use crate::msg::{ExecuteMsg, GetAllPollsResponse, GetPollResponse};
use crate::state::{
    fee_covered, labels_view, poll_view, polls_view, CoinView, ConfigView, PollView, MAX_OPTIONS,
};
use crate::tally::{
    is_first_slot, lemma_same_labels_same_slot, lemma_slot_of, slot_of, tally_after_vote,
};
use vstd::prelude::*;
use vstd::set_lib::*;

verus! {

/// The votes of all slots together.
pub open spec fn total_votes(options: Seq<(Seq<char>, nat)>) -> nat
    decreases options.len(),
{
    if options.len() == 0 {
        0
    } else {
        total_votes(options.drop_last()) + options.last().1
    }
}

impl Ledger {
    /// Everyone who holds a ballot in the poll.
    pub open spec fn voters(self, poll_id: Seq<char>) -> Set<Seq<char>> {
        Set::new(|voter: Seq<char>| self.ballots.contains_key((voter, poll_id)))
    }

    /// The slot that the ballot of `voter` in the poll is counted in.
    pub open spec fn slot_of_ballot(self, voter: Seq<char>, poll_id: Seq<char>) -> Option<int>
        recommends
            self.ballots.contains_key((voter, poll_id)),
    {
        slot_of(self.polls[poll_id].options, self.ballots[(voter, poll_id)])
    }

    /// Everyone whose ballot in the poll is counted in `slot`.
    pub open spec fn supporters(self, poll_id: Seq<char>, slot: int) -> Set<Seq<char>> {
        Set::new(
            |voter: Seq<char>|
                self.ballots.contains_key((voter, poll_id)) && self.slot_of_ballot(voter, poll_id)
                    == Some(slot),
        )
    }

    /// Everyone whose ballot in the poll is counted in a slot below `k`.
    pub open spec fn supporters_below(self, poll_id: Seq<char>, k: int) -> Set<Seq<char>> {
        Set::new(
            |voter: Seq<char>|
                self.ballots.contains_key((voter, poll_id)) && (self.slot_of_ballot(
                    voter,
                    poll_id,
                ) matches Some(i) && i < k),
        )
    }

    /// Whether the ballots in the poll and its counts agree: every ballot
    /// names a label of the poll, and every slot counts exactly the voters
    /// whose ballot falls to it.
    pub open spec fn poll_matches(self, poll_id: Seq<char>) -> bool {
        let options = self.polls[poll_id].options;
        &&& forall|voter: Seq<char>| #[trigger]
            self.ballots.contains_key((voter, poll_id)) ==> self.slot_of_ballot(
                voter,
                poll_id,
            ) is Some
        &&& forall|i: int|
            0 <= i < options.len() ==> (#[trigger] options[i]).1 == self.supporters(
                poll_id,
                i,
            ).len()
    }

    /// The state that every operation keeps: there are finitely many ballots,
    /// and in every poll ballots and counts agree.
    pub open spec fn consistent(self) -> bool {
        &&& self.ballots.dom().finite()
        &&& forall|poll_id: Seq<char>| #[trigger]
            self.polls.contains_key(poll_id) ==> self.poll_matches(poll_id)
    }

    /// Whether nobody holds a ballot in the poll.
    pub open spec fn unvoted(self, poll_id: Seq<char>) -> bool {
        forall|voter: Seq<char>| !#[trigger] self.ballots.contains_key((voter, poll_id))
    }

    /// Whether two ledgers hold the same poll under the identifier and the
    /// same ballots in it.
    pub open spec fn same_poll(self, other: Ledger, poll_id: Seq<char>) -> bool {
        &&& self.polls[poll_id] == other.polls[poll_id]
        &&& forall|voter: Seq<char>|
            #![trigger self.ballots.contains_key((voter, poll_id))]
            #![trigger other.ballots.contains_key((voter, poll_id))]
            self.ballot_of(voter, poll_id) == other.ballot_of(voter, poll_id)
    }
}

/// In the ledger that holds nothing, ballots and counts agree.
pub proof fn lemma_empty_is_consistent()
    ensures
        Ledger::empty().consistent(),
{
    assert(Ledger::empty().ballots.dom() =~= Set::empty());
}

/// With finitely many ballots, a poll has finitely many voters.
pub proof fn lemma_voters_finite(ledger: Ledger, poll_id: Seq<char>)
    requires
        ledger.ballots.dom().finite(),
    ensures
        ledger.voters(poll_id).finite(),
{
    let first = |key: (Seq<char>, Seq<char>)| key.0;
    ledger.ballots.dom().lemma_map_finite(first);
    let image = ledger.ballots.dom().map(first);
    assert forall|voter: Seq<char>| ledger.voters(poll_id).contains(voter) implies image.contains(
        voter,
    ) by {
        let key = (voter, poll_id);
        assert(ledger.ballots.dom().contains(key) && voter == first(key));
    }
    lemma_len_subset(ledger.voters(poll_id), image);
}

/// With finitely many ballots, a slot has finitely many supporters.
pub proof fn lemma_supporters_finite(ledger: Ledger, poll_id: Seq<char>, slot: int)
    requires
        ledger.ballots.dom().finite(),
    ensures
        ledger.supporters(poll_id, slot).finite(),
{
    lemma_voters_finite(ledger, poll_id);
    lemma_len_subset(ledger.supporters(poll_id, slot), ledger.voters(poll_id));
}

/// Whether ballots and counts of a poll agree depends on that poll and on
/// the ballots in it alone.
proof fn lemma_same_poll_matches(ledger: Ledger, other: Ledger, poll_id: Seq<char>)
    requires
        ledger.poll_matches(poll_id),
        ledger.same_poll(other, poll_id),
    ensures
        other.poll_matches(poll_id),
{
    let options = other.polls[poll_id].options;
    assert forall|i: int| 0 <= i < options.len() implies (#[trigger] options[i]).1
        == other.supporters(poll_id, i).len() by {
        assert(other.supporters(poll_id, i) =~= ledger.supporters(poll_id, i));
    }
}

/// In a ledger whose ballots and counts agree, the slot of a voter's ballot
/// holds at least their vote.
pub proof fn lemma_ballot_is_counted(ledger: Ledger, voter: Seq<char>, poll_id: Seq<char>)
    requires
        ledger.consistent(),
        ledger.polls.contains_key(poll_id),
        ledger.ballots.contains_key((voter, poll_id)),
    ensures
        ledger.slot_of_ballot(voter, poll_id) matches Some(i) && 0 <= i
            < ledger.polls[poll_id].options.len() && ledger.polls[poll_id].options[i].1 >= 1,
{
    assert(ledger.poll_matches(poll_id));
    let options = ledger.polls[poll_id].options;
    lemma_slot_of(options, ledger.ballots[(voter, poll_id)]);
    let i = ledger.slot_of_ballot(voter, poll_id).unwrap();
    let counted = ledger.supporters(poll_id, i);
    lemma_supporters_finite(ledger, poll_id, i);
    assert(counted.contains(voter));
    assert(options[i].1 == counted.len());
    if counted.len() == 0 {
        assert(counted =~= Set::empty());
    }
}

/// In a ledger whose ballots and counts agree, a voter's ballot is counted
/// in one slot and in no other: the first that carries the label.
pub proof fn lemma_ballot_in_one_slot(ledger: Ledger, voter: Seq<char>, poll_id: Seq<char>)
    requires
        ledger.consistent(),
        ledger.polls.contains_key(poll_id),
        ledger.ballots.contains_key((voter, poll_id)),
    ensures
        exists|i: int|
            {
                &&& is_first_slot(
                    ledger.polls[poll_id].options,
                    ledger.ballots[(voter, poll_id)],
                    i,
                )
                &&& ledger.polls[poll_id].options[i].1 == ledger.supporters(poll_id, i).len()
                &&& forall|j: int| #[trigger]
                    ledger.supporters(poll_id, j).contains(voter) <==> j == i
            },
{
    assert(ledger.poll_matches(poll_id));
    lemma_slot_of(ledger.polls[poll_id].options, ledger.ballots[(voter, poll_id)]);
    let i = ledger.slot_of_ballot(voter, poll_id).unwrap();
    assert(forall|j: int| #[trigger] ledger.supporters(poll_id, j).contains(voter) <==> j == i);
}

/// The slots below `k` hold as many votes as there are voters whose ballot
/// is counted in one of them.
proof fn lemma_votes_below(ledger: Ledger, poll_id: Seq<char>, k: int)
    requires
        ledger.ballots.dom().finite(),
        ledger.poll_matches(poll_id),
        0 <= k <= ledger.polls[poll_id].options.len(),
    ensures
        ledger.supporters_below(poll_id, k).finite(),
        total_votes(ledger.polls[poll_id].options.take(k)) == ledger.supporters_below(
            poll_id,
            k,
        ).len(),
    decreases k,
{
    let options = ledger.polls[poll_id].options;
    if k == 0 {
        assert(ledger.supporters_below(poll_id, 0) =~= Set::empty());
        assert(options.take(0).len() == 0);
    } else {
        lemma_votes_below(ledger, poll_id, k - 1);
        lemma_supporters_finite(ledger, poll_id, k - 1);
        let below = ledger.supporters_below(poll_id, k - 1);
        let here = ledger.supporters(poll_id, k - 1);
        assert(options.take(k).drop_last() =~= options.take(k - 1));
        assert(options.take(k).last() == options[k - 1]);
        assert(ledger.supporters_below(poll_id, k) =~= below + here);
        assert(below.disjoint(here));
        lemma_set_disjoint_lens(below, here);
    }
}

/// In a ledger whose ballots and counts agree, the counts of a poll add up
/// to the number of its voters: of those who ever voted in it, however
/// often they switched.
pub proof fn lemma_total_is_voters(ledger: Ledger, poll_id: Seq<char>)
    requires
        ledger.consistent(),
        ledger.polls.contains_key(poll_id),
    ensures
        ledger.voters(poll_id).finite(),
        total_votes(ledger.polls[poll_id].options) == ledger.voters(poll_id).len(),
{
    let options = ledger.polls[poll_id].options;
    let all = options.len() as int;
    assert(ledger.poll_matches(poll_id));
    lemma_votes_below(ledger, poll_id, all);
    assert(options.take(all) =~= options);
    assert forall|voter: Seq<char>| ledger.voters(poll_id).contains(voter) implies (
    ledger.supporters_below(poll_id, all).contains(voter)) by {
        assert(ledger.ballots.contains_key((voter, poll_id)));
        lemma_slot_of(options, ledger.ballots[(voter, poll_id)]);
    }
    assert(ledger.supporters_below(poll_id, all) =~= ledger.voters(poll_id));
}

/// A vote leaves every label of the poll in its slot.
proof fn lemma_vote_keeps_slots(
    options: Seq<(Seq<char>, nat)>,
    prior: Option<Seq<char>>,
    vote: Seq<char>,
    label: Seq<char>,
)
    ensures
        slot_of(tally_after_vote(options, prior, vote), label) == slot_of(options, label),
{
    lemma_same_labels_same_slot(options, tally_after_vote(options, prior, vote), label);
}

/// After a vote, ballots and counts of the poll voted in agree as before.
proof fn lemma_vote_poll_matches(
    ledger: Ledger,
    voter: Seq<char>,
    poll_id: Seq<char>,
    vote: Seq<char>,
)
    requires
        ledger.consistent(),
        ledger.polls.contains_key(poll_id),
        slot_of(ledger.polls[poll_id].options, vote) is Some,
    ensures
        ledger.after_vote(voter, poll_id, vote).poll_matches(poll_id),
{
    let after = ledger.after_vote(voter, poll_id, vote);
    let options = ledger.polls[poll_id].options;
    let prior = ledger.ballot_of(voter, poll_id);
    let counted = after.polls[poll_id].options;
    assert(counted == tally_after_vote(options, prior, vote));
    assert(ledger.poll_matches(poll_id));
    lemma_slot_of(options, vote);
    let to = slot_of(options, vote).unwrap();
    if prior is Some {
        lemma_ballot_is_counted(ledger, voter, poll_id);
        lemma_slot_of(options, prior.unwrap());
    }
    assert forall|w: Seq<char>| #[trigger]
        after.ballots.contains_key((w, poll_id)) implies after.slot_of_ballot(w, poll_id)
        is Some by {
        lemma_vote_keeps_slots(options, prior, vote, after.ballots[(w, poll_id)]);
        if w != voter {
            assert(ledger.ballots.contains_key((w, poll_id)));
        }
    }
    assert forall|i: int| 0 <= i < counted.len() implies (#[trigger] counted[i]).1
        == after.supporters(poll_id, i).len() by {
        lemma_supporters_finite(ledger, poll_id, i);
        let were = ledger.supporters(poll_id, i);
        let are = after.supporters(poll_id, i);
        assert(options[i].1 == were.len());
        assert forall|w: Seq<char>| w != voter implies (are.contains(w) <==> were.contains(
            w,
        )) by {
            if ledger.ballots.contains_key((w, poll_id)) {
                lemma_vote_keeps_slots(options, prior, vote, ledger.ballots[(w, poll_id)]);
            }
        }
        lemma_vote_keeps_slots(options, prior, vote, vote);
        assert(are.contains(voter) <==> i == to);
        if prior == Some(vote) {
            assert(were.contains(voter) <==> i == to);
            assert(are =~= were);
        } else if i == to {
            assert(!were.contains(voter));
            assert(are =~= were.insert(voter));
        } else if were.contains(voter) {
            assert(are =~= were.remove(voter));
        } else {
            assert(are =~= were);
        }
    }
}

/// Every accepted vote keeps ballots and counts in agreement.
pub proof fn lemma_vote_keeps_consistent(
    ledger: Ledger,
    voter: Seq<char>,
    poll_id: Seq<char>,
    vote: Seq<char>,
)
    requires
        ledger.consistent(),
        ledger.polls.contains_key(poll_id),
        slot_of(ledger.polls[poll_id].options, vote) is Some,
    ensures
        ledger.after_vote(voter, poll_id, vote).consistent(),
{
    let after = ledger.after_vote(voter, poll_id, vote);
    assert(after.ballots.dom() =~= ledger.ballots.dom().insert((voter, poll_id)));
    assert forall|other: Seq<char>| #[trigger]
        after.polls.contains_key(other) implies after.poll_matches(other) by {
        if other == poll_id {
            lemma_vote_poll_matches(ledger, voter, poll_id, vote);
        } else {
            assert(ledger.polls.contains_key(other));
            lemma_same_poll_matches(ledger, after, other);
        }
    }
}

/// A change of the configuration keeps ballots and counts in agreement.
pub proof fn lemma_config_keeps_consistent(ledger: Ledger, config: ConfigView)
    requires
        ledger.consistent(),
    ensures
        ledger.with_config(config).consistent(),
{
    let after = ledger.with_config(config);
    assert forall|poll_id: Seq<char>| #[trigger]
        after.polls.contains_key(poll_id) implies after.poll_matches(poll_id) by {
        lemma_same_poll_matches(ledger, after, poll_id);
    }
}

/// A new poll keeps ballots and counts in agreement, as long as nobody holds
/// a ballot under its identifier. (A poll that replaces one which was voted
/// in starts at zero while those ballots stay: there the two disagree.)
pub proof fn lemma_create_keeps_consistent(
    ledger: Ledger,
    creator: Seq<char>,
    poll_id: Seq<char>,
    question: Seq<char>,
    labels: Seq<Seq<char>>,
)
    requires
        ledger.consistent(),
        ledger.unvoted(poll_id),
    ensures
        ledger.after_create(creator, poll_id, question, labels).consistent(),
{
    let after = ledger.after_create(creator, poll_id, question, labels);
    assert forall|other: Seq<char>| #[trigger]
        after.polls.contains_key(other) implies after.poll_matches(other) by {
        if other == poll_id {
            let options = after.polls[other].options;
            assert forall|i: int| 0 <= i < options.len() implies (#[trigger] options[i]).1
                == after.supporters(other, i).len() by {
                assert(after.supporters(other, i) =~= Set::empty());
            }
        } else {
            lemma_same_poll_matches(ledger, after, other);
        }
    }
}

/// Closing a poll keeps ballots and counts in agreement, and the counts of
/// the poll as they were.
pub proof fn lemma_close_keeps_consistent(ledger: Ledger, poll_id: Seq<char>)
    requires
        ledger.consistent(),
        ledger.polls.contains_key(poll_id),
    ensures
        ledger.after_close(poll_id).consistent(),
        ledger.after_close(poll_id).polls[poll_id].options == ledger.polls[poll_id].options,
{
    let after = ledger.after_close(poll_id);
    assert forall|other: Seq<char>| #[trigger]
        after.polls.contains_key(other) implies after.poll_matches(other) by {
        if other == poll_id {
            let options = after.polls[other].options;
            assert(ledger.poll_matches(other));
            assert forall|i: int| 0 <= i < options.len() implies (#[trigger] options[i]).1
                == after.supporters(other, i).len() by {
                assert(after.supporters(other, i) =~= ledger.supporters(other, i));
            }
        } else {
            lemma_same_poll_matches(ledger, after, other);
        }
    }
}

/// The same vote a second time changes nothing: no count and no ballot.
pub proof fn lemma_repeated_vote_changes_nothing(
    ledger: Ledger,
    voter: Seq<char>,
    poll_id: Seq<char>,
    vote: Seq<char>,
)
    ensures
        ledger.after_vote(voter, poll_id, vote).after_vote(voter, poll_id, vote)
            == ledger.after_vote(voter, poll_id, vote),
{
    let once = ledger.after_vote(voter, poll_id, vote);
    let twice = once.after_vote(voter, poll_id, vote);
    let options = once.polls[poll_id].options;
    assert(once.ballot_of(voter, poll_id) == Some(vote));
    assert(tally_after_vote(options, Some(vote), vote) =~= options);
    assert(twice.polls =~= once.polls);
    assert(twice.ballots =~= once.ballots);
}

/// A voter who casts the vote that their ballot holds already leaves the
/// ledger as it is, however the call ends; and on a poll that takes votes
/// the call ends well.
pub proof fn lemma_same_vote_again(
    before: Ledger,
    polls_intact: bool,
    ballots_intact: bool,
    after: Ledger,
    voter: Seq<char>,
    poll_id: Seq<char>,
    vote: Seq<char>,
    res: Result<Response, ContractError>,
)
    requires
        vote_outcome(before, polls_intact, ballots_intact, after, voter, poll_id, vote, res),
        before.ballot_of(voter, poll_id) == Some(vote),
    ensures
        after == before,
        before.polls.contains_key(poll_id) && before.polls[poll_id].is_active && slot_of(
            before.polls[poll_id].options,
            vote,
        ) is Some ==> res is Ok,
{
    if res is Ok {
        let options = before.polls[poll_id].options;
        assert(before.ballots.insert((voter, poll_id), vote) =~= before.ballots);
        assert(tally_after_vote(options, Some(vote), vote) =~= options);
        assert(after.polls =~= before.polls);
    }
}

/// A vote for a label of a poll that takes votes is served: the call ends
/// well, with the vote counted and recorded, for every voter who holds a
/// ballot in the poll, and for every other voter as long as the store
/// holds nothing but ballots in their place.
pub proof fn lemma_accepted_vote_is_served(
    before: Ledger,
    polls_intact: bool,
    ballots_intact: bool,
    after: Ledger,
    voter: Seq<char>,
    poll_id: Seq<char>,
    vote: Seq<char>,
    res: Result<Response, ContractError>,
)
    requires
        vote_outcome(before, polls_intact, ballots_intact, after, voter, poll_id, vote, res),
        before.polls.contains_key(poll_id),
        before.polls[poll_id].is_active,
        slot_of(before.polls[poll_id].options, vote) is Some,
        before.ballot_of(voter, poll_id) is Some || ballots_intact,
    ensures
        res is Ok,
        after == before.after_vote(voter, poll_id, vote),
{
}

/// The first `k` slots after a vote has moved from the slot of `first` to
/// that of `second` hold the votes that they held, one more where the slot
/// of `second` is among them, one less where the slot of `first` is.
proof fn lemma_total_after_move(
    options: Seq<(Seq<char>, nat)>,
    first: Seq<char>,
    second: Seq<char>,
    k: int,
)
    requires
        slot_of(options, first) is Some,
        slot_of(options, second) is Some,
        first != second,
        options[slot_of(options, first).unwrap()].1 >= 1,
        0 <= k <= options.len(),
    ensures
        total_votes(tally_after_vote(options, Some(first), second).take(k)) == total_votes(
            options.take(k),
        ) + (if slot_of(options, second).unwrap() < k {
            1int
        } else {
            0int
        }) - (if slot_of(options, first).unwrap() < k {
            1int
        } else {
            0int
        }),
    decreases k,
{
    let moved = tally_after_vote(options, Some(first), second);
    lemma_slot_of(options, first);
    lemma_slot_of(options, second);
    if k == 0 {
        assert(moved.take(0).len() == 0);
        assert(options.take(0).len() == 0);
    } else {
        lemma_total_after_move(options, first, second, k - 1);
        assert(moved.take(k).drop_last() =~= moved.take(k - 1));
        assert(options.take(k).drop_last() =~= options.take(k - 1));
        assert(moved.take(k).last() == moved[k - 1]);
        assert(options.take(k).last() == options[k - 1]);
    }
}

/// A voter whose ballot holds `first`, counted at least once, and who votes
/// another label `second` moves one vote: the slot of `first` loses one,
/// the slot of `second` gains one, every other slot keeps its count, and so
/// does the poll as a whole.
pub proof fn lemma_switched_vote_moves_one(
    ledger: Ledger,
    voter: Seq<char>,
    poll_id: Seq<char>,
    first: Seq<char>,
    second: Seq<char>,
)
    requires
        ledger.polls.contains_key(poll_id),
        ledger.ballot_of(voter, poll_id) == Some(first),
        slot_of(ledger.polls[poll_id].options, first) is Some,
        slot_of(ledger.polls[poll_id].options, second) is Some,
        ledger.polls[poll_id].options[slot_of(ledger.polls[poll_id].options, first).unwrap()].1
            >= 1,
        first != second,
    ensures
        ({
            let from = slot_of(ledger.polls[poll_id].options, first).unwrap();
            let to = slot_of(ledger.polls[poll_id].options, second).unwrap();
            let once = ledger.polls[poll_id].options;
            let switched = ledger.after_vote(voter, poll_id, second);
            let twice = switched.polls[poll_id].options;
            &&& from != to
            &&& twice.len() == once.len()
            &&& twice[from].1 == once[from].1 - 1
            &&& twice[to].1 == once[to].1 + 1
            &&& forall|i: int|
                0 <= i < once.len() && i != from && i != to ==> (#[trigger] twice[i]).1
                    == once[i].1
            &&& forall|i: int| 0 <= i < once.len() ==> (#[trigger] twice[i]).0 == once[i].0
            &&& total_votes(twice) == total_votes(once)
            &&& switched.ballot_of(voter, poll_id) == Some(second)
        }),
{
    let options = ledger.polls[poll_id].options;
    let all = options.len() as int;
    let moved = tally_after_vote(options, Some(first), second);
    lemma_slot_of(options, first);
    lemma_slot_of(options, second);
    lemma_total_after_move(options, first, second, all);
    assert(moved.take(all) =~= moved);
    assert(options.take(all) =~= options);
}

/// In a ledger whose ballots and counts agree, a voter who switches to
/// another label of the poll leaves the votes of the poll together as they
/// are, and ballots and counts in agreement.
pub proof fn lemma_switch_keeps_total(
    ledger: Ledger,
    voter: Seq<char>,
    poll_id: Seq<char>,
    second: Seq<char>,
)
    requires
        ledger.consistent(),
        ledger.polls.contains_key(poll_id),
        ledger.ballot_of(voter, poll_id) is Some,
        slot_of(ledger.polls[poll_id].options, second) is Some,
        ledger.ballot_of(voter, poll_id) != Some(second),
    ensures
        total_votes(ledger.after_vote(voter, poll_id, second).polls[poll_id].options)
            == total_votes(ledger.polls[poll_id].options),
        ledger.after_vote(voter, poll_id, second).consistent(),
{
    lemma_ballot_is_counted(ledger, voter, poll_id);
    lemma_switched_vote_moves_one(
        ledger,
        voter,
        poll_id,
        ledger.ballots[(voter, poll_id)],
        second,
    );
    lemma_vote_keeps_consistent(ledger, voter, poll_id, second);
}

/// A voter who has voted `first` and then votes another label `second` of
/// a poll that takes votes is served, and moves one vote: the slot of
/// `first` loses one, the slot of `second` gains one, every other slot keeps
/// its count and the poll its total, and the ballot holds `second`.
pub proof fn lemma_switched_vote_is_served(
    before: Ledger,
    polls_intact: bool,
    ballots_intact: bool,
    after: Ledger,
    voter: Seq<char>,
    poll_id: Seq<char>,
    first: Seq<char>,
    second: Seq<char>,
    res: Result<Response, ContractError>,
)
    requires
        before.polls.contains_key(poll_id),
        before.polls[poll_id].is_active,
        before.ballot_of(voter, poll_id) == Some(first),
        slot_of(before.polls[poll_id].options, first) is Some,
        slot_of(before.polls[poll_id].options, second) is Some,
        before.polls[poll_id].options[slot_of(before.polls[poll_id].options, first).unwrap()].1
            >= 1,
        first != second,
        vote_outcome(before, polls_intact, ballots_intact, after, voter, poll_id, second, res),
    ensures
        res is Ok,
        ({
            let from = slot_of(before.polls[poll_id].options, first).unwrap();
            let to = slot_of(before.polls[poll_id].options, second).unwrap();
            let once = before.polls[poll_id].options;
            let twice = after.polls[poll_id].options;
            &&& from != to
            &&& twice.len() == once.len()
            &&& twice[from].1 == once[from].1 - 1
            &&& twice[to].1 == once[to].1 + 1
            &&& forall|i: int|
                0 <= i < once.len() && i != from && i != to ==> (#[trigger] twice[i]).1
                    == once[i].1
            &&& forall|i: int| 0 <= i < once.len() ==> (#[trigger] twice[i]).0 == once[i].0
            &&& total_votes(twice) == total_votes(once)
            &&& after.ballot_of(voter, poll_id) == Some(second)
            &&& after.config == before.config
        }),
{
    lemma_switched_vote_moves_one(before, voter, poll_id, first, second);
}

/// A ledger whose ballots and counts agree can take every vote, as long as
/// no count of the poll has reached the largest number that a slot holds.
pub proof fn lemma_consistent_fits_vote(
    ledger: Ledger,
    voter: Seq<char>,
    poll_id: Seq<char>,
    vote: Seq<char>,
)
    requires
        ledger.consistent(),
        ledger.polls.contains_key(poll_id) ==> forall|i: int|
            0 <= i < ledger.polls[poll_id].options.len() ==> (
            #[trigger] ledger.polls[poll_id].options[i]).1 < u64::MAX,
    ensures
        vote_fits(ledger, voter, poll_id, vote),
{
    if ledger.polls.contains_key(poll_id) && ledger.ballots.contains_key((voter, poll_id)) {
        lemma_ballot_is_counted(ledger, voter, poll_id);
    }
}

/// No call disturbs the agreement of ballots and counts, however it ends.
/// The one exception is a poll created under an identifier that somebody
/// holds a ballot for.
pub proof fn lemma_execute_keeps_consistent(
    before: Ledger,
    polls_intact: bool,
    ballots_intact: bool,
    after: Ledger,
    sender: Seq<char>,
    funds: Seq<CoinView>,
    msg: ExecuteMsg,
    res: Result<Response, ContractError>,
)
    requires
        before.consistent(),
        execute_outcome(before, polls_intact, ballots_intact, after, sender, funds, msg, res),
        msg matches ExecuteMsg::CreatePoll { poll_id, .. } ==> before.unvoted(poll_id@),
    ensures
        after.consistent(),
{
    if res is Ok {
        match msg {
            ExecuteMsg::CreatePoll { poll_id, question, options } => {
                lemma_create_keeps_consistent(
                    before,
                    sender,
                    poll_id@,
                    question@,
                    labels_view(options@),
                );
            },
            ExecuteMsg::Vote { poll_id, vote } => {
                lemma_vote_keeps_consistent(before, sender, poll_id@, vote@);
            },
            ExecuteMsg::ClosePoll { poll_id } => {
                lemma_close_keeps_consistent(before, poll_id@);
            },
        }
    }
}

/// A set-up keeps ballots and counts in agreement, whether it succeeds or
/// fails.
pub proof fn lemma_instantiate_keeps_consistent(
    before: Ledger,
    after: Ledger,
    admin: Seq<char>,
    funds: Seq<CoinView>,
    res: Result<Response, ContractError>,
)
    requires
        before.consistent(),
        instantiate_outcome(before, after, admin, funds, res),
    ensures
        after.consistent(),
{
    if res is Ok {
        lemma_config_keeps_consistent(before, ConfigView { admin, fee: funds[0] });
    }
}

/// No call deletes a poll or a ballot or touches the configuration, however
/// it ends.
pub proof fn lemma_records_stay(
    before: Ledger,
    polls_intact: bool,
    ballots_intact: bool,
    after: Ledger,
    sender: Seq<char>,
    funds: Seq<CoinView>,
    msg: ExecuteMsg,
    res: Result<Response, ContractError>,
)
    requires
        execute_outcome(before, polls_intact, ballots_intact, after, sender, funds, msg, res),
    ensures
        before.polls.dom().subset_of(after.polls.dom()),
        before.ballots.dom().subset_of(after.ballots.dom()),
        after.config == before.config,
{
}

/// A ballot comes into the ledger by its voter's own vote and in no other
/// way.
pub proof fn lemma_ballot_comes_from_vote(
    before: Ledger,
    polls_intact: bool,
    ballots_intact: bool,
    after: Ledger,
    sender: Seq<char>,
    funds: Seq<CoinView>,
    msg: ExecuteMsg,
    res: Result<Response, ContractError>,
    voter: Seq<char>,
    poll_id: Seq<char>,
)
    requires
        execute_outcome(before, polls_intact, ballots_intact, after, sender, funds, msg, res),
        after.ballot_of(voter, poll_id) != before.ballot_of(voter, poll_id),
    ensures
        voter == sender,
        msg matches ExecuteMsg::Vote { poll_id: voted_in, vote } && voted_in@ == poll_id
            && after.ballot_of(voter, poll_id) == Some(vote@),
{
}

/// With the fee paid, the number of options decides: more than ten end the
/// creation with `TooManyOptions`, up to ten create the poll, none
/// included. Every error leaves the ledger as it was.
pub proof fn lemma_option_limit(
    before: Ledger,
    after: Ledger,
    creator: Seq<char>,
    funds: Seq<CoinView>,
    poll_id: Seq<char>,
    question: Seq<char>,
    labels: Seq<Seq<char>>,
    res: Result<Response, ContractError>,
)
    requires
        create_poll_outcome(before, after, creator, funds, poll_id, question, labels, res),
        before.config is Some,
        fee_covered(funds, before.config->Some_0.fee),
    ensures
        labels.len() > MAX_OPTIONS <==> res == Err::<Response, ContractError>(
            ContractError::TooManyOptions {  },
        ),
        labels.len() <= MAX_OPTIONS <==> res is Ok,
        res is Ok ==> after == before.after_create(creator, poll_id, question, labels),
        res is Err ==> after == before,
{
}

/// Without the fee paid nothing is created, whatever the options: the call
/// ends with `InsufficientFunds` and the ledger is as it was.
pub proof fn lemma_fee_comes_first(
    before: Ledger,
    after: Ledger,
    creator: Seq<char>,
    funds: Seq<CoinView>,
    poll_id: Seq<char>,
    question: Seq<char>,
    labels: Seq<Seq<char>>,
    res: Result<Response, ContractError>,
)
    requires
        create_poll_outcome(before, after, creator, funds, poll_id, question, labels, res),
        before.config is Some,
        !fee_covered(funds, before.config->Some_0.fee),
    ensures
        res == Err::<Response, ContractError>(ContractError::InsufficientFunds {  }),
        after == before,
{
}

/// The creator of a poll and the administrator can close it, and nobody
/// else: for them the call ends well, for anybody else with `Unauthorized`
/// and the poll active with its counts as they are. What is attached to the
/// call plays no part.
pub proof fn lemma_close_is_for_creator_and_admin(
    before: Ledger,
    polls_intact: bool,
    after: Ledger,
    caller: Seq<char>,
    poll_id: Seq<char>,
    res: Result<Response, ContractError>,
)
    requires
        close_poll_outcome(before, polls_intact, after, caller, poll_id, res),
        before.polls.contains_key(poll_id),
        before.config is Some,
    ensures
        res is Ok <==> may_close(caller, before.polls[poll_id].creator, before.config->Some_0),
        res is Ok ==> after == before.after_close(poll_id),
        res is Err ==> after == before && res == Err::<Response, ContractError>(
            ContractError::Unauthorized {  },
        ),
{
}

/// A call for a poll that the ledger does not hold ends with
/// `PollNotFound` and nothing written, as long as the store holds nothing
/// but polls in their place.
pub proof fn lemma_missing_poll_is_not_found(
    before: Ledger,
    ballots_intact: bool,
    after: Ledger,
    sender: Seq<char>,
    funds: Seq<CoinView>,
    msg: ExecuteMsg,
    res: Result<Response, ContractError>,
)
    requires
        execute_outcome(before, true, ballots_intact, after, sender, funds, msg, res),
        match msg {
            ExecuteMsg::Vote { poll_id, .. } => !before.polls.contains_key(poll_id@),
            ExecuteMsg::ClosePoll { poll_id } => !before.polls.contains_key(poll_id@),
            _ => false,
        },
    ensures
        res matches Err(ContractError::PollNotFound { .. }),
        after == before,
{
}

/// To a look-up a missing poll is no error: as long as the store holds
/// nothing but polls in their place, the look-up answers, with the poll or
/// with none.
pub proof fn lemma_look_up_answers(
    ledger: Ledger,
    poll_id: Seq<char>,
    res: Result<GetPollResponse, cosmwasm_std::StdError>,
)
    requires
        poll_answer(ledger, true, poll_id, res),
    ensures
        res is Ok,
        poll_view(res->Ok_0.poll) == ledger.poll_of(poll_id),
{
}

/// A closed poll takes no vote: the call ends with `PollClosed` and nothing
/// is written.
pub proof fn lemma_closed_poll_is_frozen(
    before: Ledger,
    polls_intact: bool,
    ballots_intact: bool,
    after: Ledger,
    voter: Seq<char>,
    poll_id: Seq<char>,
    vote: Seq<char>,
    res: Result<Response, ContractError>,
)
    requires
        vote_outcome(before, polls_intact, ballots_intact, after, voter, poll_id, vote, res),
        before.polls.contains_key(poll_id),
        !before.polls[poll_id].is_active,
    ensures
        res matches Err(ContractError::PollClosed { poll_id: closed }) && closed@ == poll_id,
        after == before,
{
}

/// A closed poll stays as it is, whatever is called and however the call
/// ends, until a new poll is created in its place.
pub proof fn lemma_closed_poll_stays(
    before: Ledger,
    polls_intact: bool,
    ballots_intact: bool,
    after: Ledger,
    sender: Seq<char>,
    funds: Seq<CoinView>,
    msg: ExecuteMsg,
    res: Result<Response, ContractError>,
    closed: Seq<char>,
)
    requires
        execute_outcome(before, polls_intact, ballots_intact, after, sender, funds, msg, res),
        before.polls.contains_key(closed),
        !before.polls[closed].is_active,
        !(msg matches ExecuteMsg::CreatePoll { poll_id, .. } && poll_id@ == closed),
    ensures
        after.polls.contains_key(closed),
        after.polls[closed] == before.polls[closed],
{
}

/// No byte string comes before itself.
proof fn lemma_bytes_before_is_strict(a: Seq<u8>)
    ensures
        !bytes_before(a, a),
{
}

/// What comes before a byte string comes before all that it comes before.
proof fn lemma_bytes_before_is_transitive(a: Seq<u8>, b: Seq<u8>, c: Seq<u8>)
    requires
        bytes_before(a, b),
        bytes_before(b, c),
    ensures
        bytes_before(a, c),
{
    let n1 = choose|n: int|
        {
            &&& 0 <= n <= a.len()
            &&& n <= b.len()
            &&& a.subrange(0, n) == b.subrange(0, n)
            &&& (if n == a.len() {
                n < b.len()
            } else {
                n < b.len() && a[n] < b[n]
            })
        };
    let n2 = choose|n: int|
        {
            &&& 0 <= n <= b.len()
            &&& n <= c.len()
            &&& b.subrange(0, n) == c.subrange(0, n)
            &&& (if n == b.len() {
                n < c.len()
            } else {
                n < c.len() && b[n] < c[n]
            })
        };
    let n = if n1 <= n2 {
        n1
    } else {
        n2
    };
    assert forall|k: int| 0 <= k < n1 implies a[k] == b[k] by {
        assert(a.subrange(0, n1)[k] == a[k]);
        assert(b.subrange(0, n1)[k] == b[k]);
    }
    assert forall|k: int| 0 <= k < n2 implies b[k] == c[k] by {
        assert(b.subrange(0, n2)[k] == b[k]);
        assert(c.subrange(0, n2)[k] == c[k]);
    }
    assert(a.subrange(0, n) =~= c.subrange(0, n));
}

/// Two listings of the same polls agree in their first `i` entries.
proof fn lemma_listings_agree(
    polls: Map<Seq<char>, PollView>,
    x: Seq<(Seq<char>, PollView)>,
    y: Seq<(Seq<char>, PollView)>,
    i: int,
)
    requires
        is_listing(polls, x),
        is_listing(polls, y),
        0 <= i <= x.len(),
    ensures
        i <= y.len(),
        forall|k: int| 0 <= k < i ==> x[k] == y[k],
    decreases i,
{
    if i > 0 {
        lemma_listings_agree(polls, x, y, i - 1);
        let at = i - 1;
        let id = x[at].0;
        assert(polls.contains_key(id));
        let j = choose|j: int| 0 <= j < y.len() && (#[trigger] y[j]).0 == id;
        lemma_bytes_before_is_strict(vstd::utf8::encode_utf8(id));
        if j < at {
            assert(x[j] == y[j]);
            assert(id_before(x[j].0, x[at].0));
        }
        let other = y[at].0;
        assert(polls.contains_key(other));
        let j2 = choose|j2: int| 0 <= j2 < x.len() && (#[trigger] x[j2]).0 == other;
        lemma_bytes_before_is_strict(vstd::utf8::encode_utf8(other));
        if j2 < at {
            assert(x[j2] == y[j2]);
            assert(id_before(y[j2].0, y[at].0));
        }
        if j > at {
            assert(id_before(y[at].0, y[j].0));
            if j2 > at {
                assert(id_before(x[at].0, x[j2].0));
                lemma_bytes_before_is_transitive(
                    vstd::utf8::encode_utf8(other),
                    vstd::utf8::encode_utf8(id),
                    vstd::utf8::encode_utf8(other),
                );
            }
        }
        assert(y[at].0 == id);
        assert(x[at].1 == polls[id] && y[at].1 == polls[id]);
    }
}

/// The polls of a ledger have one listing and no other: what a query for all
/// polls answers is decided by the ledger.
pub proof fn lemma_listing_is_unique(
    polls: Map<Seq<char>, PollView>,
    a: Seq<PollView>,
    b: Seq<PollView>,
)
    requires
        lists_all(polls, a),
        lists_all(polls, b),
    ensures
        a == b,
{
    let ids_a = choose|ids: Seq<Seq<char>>|
        ids.len() == a.len() && #[trigger] is_listing(polls, ids.zip_with(a));
    let ids_b = choose|ids: Seq<Seq<char>>|
        ids.len() == b.len() && #[trigger] is_listing(polls, ids.zip_with(b));
    let x = ids_a.zip_with(a);
    let y = ids_b.zip_with(b);
    lemma_listings_agree(polls, x, y, x.len() as int);
    lemma_listings_agree(polls, y, x, y.len() as int);
    assert forall|k: int| 0 <= k < a.len() implies a[k] == b[k] by {
        assert(x[k] == y[k]);
    }
    assert(a =~= b);
}

/// What a query for all polls answers is decided by the store: two answers
/// to it either both fail or hold the same polls in the same order.
pub proof fn lemma_listing_is_decided(
    ledger: Ledger,
    polls_intact: bool,
    one: Result<GetAllPollsResponse, cosmwasm_std::StdError>,
    other: Result<GetAllPollsResponse, cosmwasm_std::StdError>,
)
    requires
        all_polls_answer(ledger, polls_intact, one),
        all_polls_answer(ledger, polls_intact, other),
    ensures
        one is Ok <==> polls_intact,
        one is Ok <==> other is Ok,
        one is Ok ==> polls_view(one->Ok_0.polls@) == polls_view(other->Ok_0.polls@),
{
    if one is Ok {
        lemma_listing_is_unique(
            ledger.polls,
            polls_view(one->Ok_0.polls@),
            polls_view(other->Ok_0.polls@),
        );
    }
}

} // verus!
