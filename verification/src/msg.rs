//! The calls that the ledger takes and the answers to its queries.
use crate::state::{Ballot, Poll};
use vstd::prelude::*;

verus! {

/// Sets the ledger up. Without an administrator the caller becomes it.
#[derive(Clone, Debug, PartialEq, Eq)]
pub struct InstantiateMsg {
    pub admin: Option<String>,
}

/// A call that changes the ledger.
#[derive(Clone, Debug, PartialEq, Eq)]
pub enum ExecuteMsg {
    CreatePoll { poll_id: String, question: String, options: Vec<String> },
    Vote { poll_id: String, vote: String },
    ClosePoll { poll_id: String },
}

/// A call that reads the ledger.
#[derive(Clone, Debug, PartialEq, Eq)]
pub enum QueryMsg {
    GetAllPolls {  },
    GetPoll { poll_id: String },
    GetUserVote { user: String, poll_id: String },
}

/// Every poll, in ascending order of the identifiers.
#[derive(Clone, Debug, PartialEq, Eq)]
pub struct GetAllPollsResponse {
    pub polls: Vec<Poll>,
}

/// One poll, or none where the identifier is free.
#[derive(Clone, Debug, PartialEq, Eq)]
pub struct GetPollResponse {
    pub poll: Option<Poll>,
}

/// A voter's ballot in one poll, or none where they have not voted.
#[derive(Clone, Debug, PartialEq, Eq)]
pub struct GetUserVoteResponse {
    pub vote: Option<Ballot>,
}

/// The answer to a [`QueryMsg`], one variant for each query.
#[derive(Clone, Debug, PartialEq, Eq)]
pub enum QueryResponse {
    AllPolls(GetAllPollsResponse),
    Poll(GetPollResponse),
    UserVote(GetUserVoteResponse),
}

} // verus!
