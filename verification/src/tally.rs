//! How votes are counted: the slot that a label falls to, and what a vote
//! does to the counts of a poll.
use crate::state::{ballot_view, Ballot, Poll, PollView};
use vstd::prelude::*;

verus! {

/// Whether `i` is the first slot of `options` that carries `label`.
pub open spec fn is_first_slot(options: Seq<(Seq<char>, nat)>, label: Seq<char>, i: int) -> bool {
    &&& 0 <= i < options.len()
    &&& options[i].0 == label
    &&& forall|j: int| 0 <= j < i ==> (#[trigger] options[j]).0 != label
}

/// The slot that a vote for `label` is counted in: the first one that carries
/// the label. `None` where no option has that label.
pub open spec fn slot_of(options: Seq<(Seq<char>, nat)>, label: Seq<char>) -> Option<int> {
    if exists|i: int| is_first_slot(options, label, i) {
        Some(choose|i: int| is_first_slot(options, label, i))
    } else {
        None
    }
}

/// A first slot is the slot of its label, and there is no other.
pub proof fn lemma_first_slot_is_slot_of(options: Seq<(Seq<char>, nat)>, label: Seq<char>, i: int)
    requires
        is_first_slot(options, label, i),
    ensures
        slot_of(options, label) == Some(i),
{
    let c = choose|k: int| is_first_slot(options, label, k);
    assert(is_first_slot(options, label, c));
    if c < i {
        assert(options[c].0 != label);
    } else if i < c {
        assert(options[i].0 != label);
    }
}

/// Where no option carries the label, it has no slot; where it has a slot,
/// that slot is the first that carries it.
pub proof fn lemma_slot_of(options: Seq<(Seq<char>, nat)>, label: Seq<char>)
    ensures
        match slot_of(options, label) {
            Some(i) => is_first_slot(options, label, i),
            None => forall|j: int| 0 <= j < options.len() ==> (#[trigger] options[j]).0 != label,
        },
{
    if slot_of(options, label) is None {
        assert forall|j: int| 0 <= j < options.len() implies (#[trigger] options[j]).0
            != label by {
            if options[j].0 == label {
                lemma_some_first_slot(options, label, j);
            }
        }
    }
}

/// Below any slot that carries the label there is a first one.
proof fn lemma_some_first_slot(options: Seq<(Seq<char>, nat)>, label: Seq<char>, j: int)
    requires
        0 <= j < options.len(),
        options[j].0 == label,
    ensures
        exists|i: int| is_first_slot(options, label, i),
    decreases j,
{
    if exists|k: int| 0 <= k < j && (#[trigger] options[k]).0 == label {
        let k = choose|k: int| 0 <= k < j && (#[trigger] options[k]).0 == label;
        lemma_some_first_slot(options, label, k);
    } else {
        assert(is_first_slot(options, label, j));
    }
}

/// Two option lists with the same labels give each label the same slot.
pub proof fn lemma_same_labels_same_slot(
    a: Seq<(Seq<char>, nat)>,
    b: Seq<(Seq<char>, nat)>,
    label: Seq<char>,
)
    requires
        a.len() == b.len(),
        forall|i: int| 0 <= i < a.len() ==> (#[trigger] a[i]).0 == b[i].0,
    ensures
        slot_of(a, label) == slot_of(b, label),
{
    lemma_slot_of(a, label);
    lemma_slot_of(b, label);
    match slot_of(a, label) {
        Some(i) => {
            assert(b[i].0 == label);
            assert forall|j: int| 0 <= j < i implies (#[trigger] b[j]).0 != label by {
                assert(a[j].0 != label);
            }
            assert(is_first_slot(b, label, i));
            lemma_first_slot_is_slot_of(b, label, i);
        },
        None => {
            if slot_of(b, label) is Some {
                let i = slot_of(b, label).unwrap();
                assert(a[i].0 == label);
            }
        },
    }
}

/// How a vote changes the counts. `prior` is the voter's ballot so far. A
/// repeated vote changes nothing; otherwise the slot of the prior choice
/// loses one vote and the slot of the new choice gains one.
pub open spec fn tally_after_vote(
    options: Seq<(Seq<char>, nat)>,
    prior: Option<Seq<char>>,
    vote: Seq<char>,
) -> Seq<(Seq<char>, nat)> {
    Seq::new(
        options.len(),
        |i: int|
            (
                options[i].0,
                (options[i].1 + votes_gained(options, prior, vote, i) - votes_lost(
                    options,
                    prior,
                    vote,
                    i,
                )) as nat,
            ),
    )
}

/// 1 where slot `i` gains the vote, else 0.
pub open spec fn votes_gained(
    options: Seq<(Seq<char>, nat)>,
    prior: Option<Seq<char>>,
    vote: Seq<char>,
    i: int,
) -> int {
    if prior != Some(vote) && slot_of(options, vote) == Some(i) {
        1
    } else {
        0
    }
}

/// 1 where slot `i` loses the voter's prior choice, else 0.
pub open spec fn votes_lost(
    options: Seq<(Seq<char>, nat)>,
    prior: Option<Seq<char>>,
    vote: Seq<char>,
    i: int,
) -> int {
    match prior {
        Some(old) => if old != vote && slot_of(options, old) == Some(i) {
            1
        } else {
            0
        },
        None => 0,
    }
}

/// Whether the counts can take the vote: the label is on the poll, the slot of
/// a differing prior choice holds a vote to take back, and the slot that gains
/// has room for one more.
pub open spec fn can_take_vote(
    options: Seq<(Seq<char>, nat)>,
    prior: Option<Seq<char>>,
    vote: Seq<char>,
) -> bool {
    &&& slot_of(options, vote) is Some
    &&& forall|i: int|
        0 <= i < options.len() ==> {
            &&& votes_lost(options, prior, vote, i) <= (#[trigger] options[i]).1
            &&& options[i].1 + votes_gained(options, prior, vote, i) <= u64::MAX
        }
    &&& (prior matches Some(old) ==> slot_of(options, old) is Some)
}

impl Poll {
    /// The first slot that carries `label`.
    pub fn position(&self, label: &String) -> (r: Option<usize>)
        ensures
            match r {
                Some(i) => slot_of(self@.options, label@) == Some(i as int),
                None => slot_of(self@.options, label@) is None,
            },
    {
        let mut i: usize = 0;
        while i < self.options.len()
            invariant
                i <= self.options.len(),
                forall|k: int| 0 <= k < i ==> (#[trigger] self@.options[k]).0 != label@,
            decreases self.options.len() - i,
        {
            if self.options[i].0 == *label {
                proof {
                    lemma_first_slot_is_slot_of(self@.options, label@, i as int);
                }
                return Some(i);
            }
            i += 1;
        }
        proof {
            lemma_slot_of(self@.options, label@);
        }
        None
    }

    /// Whether the counts can take `vote` from a voter whose ballot so far is
    /// `prior`.
    pub fn can_take(&self, prior: &Option<Ballot>, vote: &String) -> (r: bool)
        ensures
            r == can_take_vote(self@.options, ballot_view(*prior), vote@),
    {
        let ghost options = self@.options;
        proof {
            lemma_slot_of(options, vote@);
        }
        let to = match self.position(vote) {
            Some(to) => to,
            None => {
                return false;
            },
        };
        match prior {
            Some(ballot) => {
                if ballot.option == *vote {
                    return true;
                }
                proof {
                    lemma_slot_of(options, ballot.option@);
                }
                match self.position(&ballot.option) {
                    Some(from) => {
                        let fits = self.options[from].1 >= 1 && self.options[to].1 < u64::MAX;
                        proof {
                            if !fits {
                                assert(options[from as int].1 == self.options[from as int].1);
                                assert(options[to as int].1 == self.options[to as int].1);
                            }
                        }
                        fits
                    },
                    None => false,
                }
            },
            None => {
                let fits = self.options[to].1 < u64::MAX;
                proof {
                    if !fits {
                        assert(options[to as int].1 == self.options[to as int].1);
                    }
                }
                fits
            },
        }
    }

    /// Counts `vote` for a voter whose ballot so far is `prior`.
    pub fn record_vote(&mut self, prior: &Option<Ballot>, vote: &String)
        requires
            can_take_vote(old(self)@.options, ballot_view(*prior), vote@),
        ensures
            final(self)@ == (PollView {
                options: tally_after_vote(old(self)@.options, ballot_view(*prior), vote@),
                ..old(self)@
            }),
    {
        let ghost before = self@.options;
        proof {
            lemma_slot_of(before, vote@);
        }
        match prior {
            Some(ballot) => {
                if ballot.option == *vote {
                    proof {
                        assert(self@.options =~= tally_after_vote(
                            before,
                            ballot_view(*prior),
                            vote@,
                        ));
                    }
                    return ;
                }
                proof {
                    lemma_slot_of(before, ballot.option@);
                }
                match self.position(&ballot.option) {
                    Some(from) => {
                        let count: u64 = self.options[from].1;
                        self.options[from].1 = count - 1;
                    },
                    None => {},
                }
            },
            None => {},
        }
        let ghost between = self@.options;
        proof {
            assert forall|i: int| 0 <= i < before.len() implies (#[trigger] between[i]).0
                == before[i].0 by {}
            lemma_same_labels_same_slot(before, between, vote@);
        }
        match self.position(vote) {
            Some(to) => {
                let count: u64 = self.options[to].1;
                self.options[to].1 = count + 1;
            },
            None => {},
        }
        proof {
            assert(self@.options =~= tally_after_vote(before, ballot_view(*prior), vote@));
        }
    }
}

} // verus!
