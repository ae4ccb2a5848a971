//! The ledger as a mathematical value: what the store holds and how each
//! operation changes it.
use crate::state::{fresh_options, ConfigView, PollView};
use crate::tally::tally_after_vote;
use vstd::prelude::*;

verus! {

/// Everything that the store holds for the ledger.
pub struct Ledger {
    /// The configuration, once it has been set.
    pub config: Option<ConfigView>,
    /// The polls by their identifiers.
    pub polls: Map<Seq<char>, PollView>,
    /// The chosen label, by voter and poll identifier.
    pub ballots: Map<(Seq<char>, Seq<char>), Seq<char>>,
}

/// Whether byte string `a` comes before `b` in lexicographic order.
pub open spec fn bytes_before(a: Seq<u8>, b: Seq<u8>) -> bool {
    exists|n: int|
        {
            &&& 0 <= n <= a.len()
            &&& n <= b.len()
            &&& a.subrange(0, n) == b.subrange(0, n)
            &&& (if n == a.len() {
                n < b.len()
            } else {
                n < b.len() && a[n] < b[n]
            })
        }
}

/// The order in which the store walks its keys: that of their UTF-8 bytes.
pub open spec fn id_before(a: Seq<char>, b: Seq<char>) -> bool {
    bytes_before(vstd::utf8::encode_utf8(a), vstd::utf8::encode_utf8(b))
}

/// Whether `entries` lists every poll of `polls` once, under its identifier,
/// in ascending order of the identifiers.
pub open spec fn is_listing(
    polls: Map<Seq<char>, PollView>,
    entries: Seq<(Seq<char>, PollView)>,
) -> bool {
    &&& forall|i: int|
        0 <= i < entries.len() ==> {
            &&& polls.contains_key((#[trigger] entries[i]).0)
            &&& polls[entries[i].0] == entries[i].1
        }
    &&& forall|i: int, j: int|
        0 <= i < j < entries.len() ==> id_before(
            (#[trigger] entries[i]).0,
            (#[trigger] entries[j]).0,
        )
    &&& forall|id: Seq<char>| #[trigger]
        polls.contains_key(id) ==> exists|i: int|
            0 <= i < entries.len() && (#[trigger] entries[i]).0 == id
}

/// Whether `listed` holds every poll of `polls` once, in ascending order of
/// the identifiers.
pub open spec fn lists_all(polls: Map<Seq<char>, PollView>, listed: Seq<PollView>) -> bool {
    exists|ids: Seq<Seq<char>>|
        ids.len() == listed.len() && #[trigger] is_listing(polls, ids.zip_with(listed))
}

impl Ledger {
    /// The ledger of a store that holds nothing yet.
    pub open spec fn empty() -> Ledger {
        Ledger { config: None, polls: Map::empty(), ballots: Map::empty() }
    }

    /// The poll under the identifier, if there is one.
    pub open spec fn poll_of(self, poll_id: Seq<char>) -> Option<PollView> {
        if self.polls.contains_key(poll_id) {
            Some(self.polls[poll_id])
        } else {
            None
        }
    }

    /// The label that `voter` has chosen in the poll so far.
    pub open spec fn ballot_of(self, voter: Seq<char>, poll_id: Seq<char>) -> Option<Seq<char>> {
        if self.ballots.contains_key((voter, poll_id)) {
            Some(self.ballots[(voter, poll_id)])
        } else {
            None
        }
    }

    /// The ledger with `config` as its configuration.
    pub open spec fn with_config(self, config: ConfigView) -> Ledger {
        Ledger { config: Some(config), ..self }
    }

    /// The ledger with a fresh active poll under `poll_id`, in place of any
    /// poll that was there.
    pub open spec fn after_create(
        self,
        creator: Seq<char>,
        poll_id: Seq<char>,
        question: Seq<char>,
        labels: Seq<Seq<char>>,
    ) -> Ledger {
        Ledger {
            polls: self.polls.insert(
                poll_id,
                PollView { creator, question, options: fresh_options(labels), is_active: true },
            ),
            ..self
        }
    }

    /// The ledger with `vote` counted for `voter` in the poll and recorded as
    /// their ballot.
    pub open spec fn after_vote(
        self,
        voter: Seq<char>,
        poll_id: Seq<char>,
        vote: Seq<char>,
    ) -> Ledger
        recommends
            self.polls.contains_key(poll_id),
    {
        let poll = self.polls[poll_id];
        Ledger {
            polls: self.polls.insert(
                poll_id,
                PollView {
                    options: tally_after_vote(poll.options, self.ballot_of(voter, poll_id), vote),
                    ..poll
                },
            ),
            ballots: self.ballots.insert((voter, poll_id), vote),
            ..self
        }
    }

    /// The ledger with the poll closed and its counts as they are.
    pub open spec fn after_close(self, poll_id: Seq<char>) -> Ledger
        recommends
            self.polls.contains_key(poll_id),
    {
        Ledger {
            polls: self.polls.insert(
                poll_id,
                PollView { is_active: false, ..self.polls[poll_id] },
            ),
            ..self
        }
    }
}

} // verus!
