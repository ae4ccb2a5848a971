//! The records that the ledger keeps, and their mathematical views.
use vstd::prelude::*;
use vstd::string::StringExecFns;

verus! {

/// The hard limit on the number of options of a poll.
pub const MAX_OPTIONS: usize = 10;

/// An amount of native tokens of one denomination.
#[derive(Clone, Debug, PartialEq, Eq)]
pub struct Coin {
    pub denom: String,
    pub amount: u128,
}

/// What a [`Coin`] is: a denomination and a natural number.
pub struct CoinView {
    pub denom: Seq<char>,
    pub amount: nat,
}

impl View for Coin {
    type V = CoinView;

    open spec fn view(&self) -> CoinView {
        CoinView { denom: self.denom@, amount: self.amount as nat }
    }
}

impl Coin {
    /// A copy that has the same view.
    pub fn duplicate(&self) -> (r: Coin)
        ensures
            r@ == self@,
    {
        Coin { denom: self.denom.clone(), amount: self.amount }
    }
}

/// The singleton configuration: who may close any poll, and what creating a
/// poll costs.
#[derive(Clone, Debug, PartialEq, Eq)]
pub struct Config {
    pub admin: String,
    pub fee: Coin,
}

/// What a [`Config`] is.
pub struct ConfigView {
    pub admin: Seq<char>,
    pub fee: CoinView,
}

impl View for Config {
    type V = ConfigView;

    open spec fn view(&self) -> ConfigView {
        ConfigView { admin: self.admin@, fee: self.fee@ }
    }
}

/// A voter's current choice in one poll.
#[derive(Clone, Debug, PartialEq, Eq)]
pub struct Ballot {
    pub option: String,
}

impl View for Ballot {
    type V = Seq<char>;

    open spec fn view(&self) -> Seq<char> {
        self.option@
    }
}

/// A question, its options with their vote counts in creation order, and
/// whether votes are still taken.
#[derive(Clone, Debug, PartialEq, Eq)]
pub struct Poll {
    pub creator: String,
    pub question: String,
    pub options: Vec<(String, u64)>,
    pub is_active: bool,
}

/// What a [`Poll`] is. Each option is a label and its count.
pub struct PollView {
    pub creator: Seq<char>,
    pub question: Seq<char>,
    pub options: Seq<(Seq<char>, nat)>,
    pub is_active: bool,
}

/// The options of a poll as labels and counts.
pub open spec fn options_view(options: Seq<(String, u64)>) -> Seq<(Seq<char>, nat)> {
    Seq::new(options.len(), |i: int| (options[i].0@, options[i].1 as nat))
}

impl View for Poll {
    type V = PollView;

    open spec fn view(&self) -> PollView {
        PollView {
            creator: self.creator@,
            question: self.question@,
            options: options_view(self.options@),
            is_active: self.is_active,
        }
    }
}

/// The views of a list of labels.
pub open spec fn labels_view(labels: Seq<String>) -> Seq<Seq<char>> {
    Seq::new(labels.len(), |i: int| labels[i]@)
}

/// The options of a fresh poll: the labels in their order, each with no vote.
pub open spec fn fresh_options(labels: Seq<Seq<char>>) -> Seq<(Seq<char>, nat)> {
    Seq::new(labels.len(), |i: int| (labels[i], 0nat))
}

impl Poll {
    /// A new active poll with the given labels, in their order, and no votes.
    pub fn new(creator: String, question: String, labels: Vec<String>) -> (r: Poll)
        ensures
            r@ == (PollView {
                creator: creator@,
                question: question@,
                options: fresh_options(labels_view(labels@)),
                is_active: true,
            }),
    {
        let mut options: Vec<(String, u64)> = Vec::new();
        let mut i: usize = 0;
        while i < labels.len()
            invariant
                i <= labels.len(),
                options.len() == i,
                forall|k: int|
                    0 <= k < i ==> (#[trigger] options[k]).0@ == labels[k]@ && options[k].1 == 0,
            decreases labels.len() - i,
        {
            options.push((labels[i].clone(), 0));
            i += 1;
        }
        let r = Poll { creator, question, options, is_active: true };
        proof {
            assert(r@.options =~= fresh_options(labels_view(labels@)));
        }
        r
    }
}

/// The labels in their order with `separator` between each two.
pub open spec fn joined(labels: Seq<Seq<char>>, separator: Seq<char>) -> Seq<char>
    decreases labels.len(),
{
    if labels.len() == 0 {
        Seq::empty()
    } else if labels.len() == 1 {
        labels[0]
    } else {
        joined(labels.drop_last(), separator) + separator + labels.last()
    }
}

/// The labels in one string, with `separator` between each two.
pub fn join_labels(labels: &Vec<String>, separator: &str) -> (r: String)
    ensures
        r@ == joined(labels_view(labels@), separator@),
{
    let mut r = String::new();
    let mut i: usize = 0;
    while i < labels.len()
        invariant
            i <= labels.len(),
            r@ == joined(labels_view(labels@).take(i as int), separator@),
        decreases labels.len() - i,
    {
        if i > 0 {
            r.append(separator);
        }
        r.append(labels[i].as_str());
        proof {
            let all = labels_view(labels@);
            assert(all.take(i + 1).drop_last() =~= all.take(i as int));
            assert(all.take(i + 1).last() == labels[i as int]@);
            if i == 0 {
                assert(Seq::<char>::empty() + labels[0]@ =~= labels[0]@);
            }
        }
        i += 1;
    }
    proof {
        assert(labels_view(labels@).take(labels.len() as int) =~= labels_view(labels@));
    }
    r
}

/// The views of a list of coins.
pub open spec fn coins_view(coins: Seq<Coin>) -> Seq<CoinView> {
    Seq::new(coins.len(), |i: int| coins[i]@)
}

/// Whether the first coin of `funds` pays `fee`: it is there, in the fee's
/// denomination, and no smaller.
pub open spec fn fee_covered(funds: Seq<CoinView>, fee: CoinView) -> bool {
    funds.len() > 0 && funds[0].denom == fee.denom && funds[0].amount >= fee.amount
}

/// Whether the first coin of `funds` pays `fee`.
pub fn covers_fee(funds: &Vec<Coin>, fee: &Coin) -> (r: bool)
    ensures
        r == fee_covered(coins_view(funds@), fee@),
{
    funds.len() > 0 && funds[0].denom == fee.denom && funds[0].amount >= fee.amount
}

/// The view of an optional poll.
pub open spec fn poll_view(poll: Option<Poll>) -> Option<PollView> {
    match poll {
        Some(p) => Some(p@),
        None => None,
    }
}

/// The views of a list of polls.
pub open spec fn polls_view(polls: Seq<Poll>) -> Seq<PollView> {
    Seq::new(polls.len(), |i: int| polls[i]@)
}

/// The view of an optional ballot.
pub open spec fn ballot_view(ballot: Option<Ballot>) -> Option<Seq<char>> {
    match ballot {
        Some(b) => Some(b@),
        None => None,
    }
}

} // verus!
