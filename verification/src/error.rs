//! The errors that end a call.
use vstd::prelude::*;

verus! {

/// `cosmwasm_std::StdError`, the fault that the host's store or its address
/// check reports. Nothing is known of what it holds.
#[verifier::external_type_specification]
#[verifier::external_body]
pub struct ExStdError(cosmwasm_std::StdError);

/// Why a call failed. Each is final for the call.
#[derive(Debug, PartialEq)]
pub enum ContractError {
    /// A fault of the store or of the address check, handed on as it came.
    Std(cosmwasm_std::StdError),
    /// The caller may not close this poll.
    Unauthorized {  },
    /// More than ten options.
    TooManyOptions {  },
    /// No poll under that identifier.
    PollNotFound { poll_id: String },
    /// The poll takes no more votes.
    PollClosed { poll_id: String },
    /// The label is on none of the poll's options.
    InvalidVote {  },
    /// The attached payment does not cover the fee.
    InsufficientFunds {  },
}

impl From<cosmwasm_std::StdError> for ContractError {
    fn from(error: cosmwasm_std::StdError) -> (r: ContractError) {
        ContractError::Std(error)
    }
}

impl vstd::std_specs::convert::FromSpecImpl<cosmwasm_std::StdError> for ContractError {
    open spec fn obeys_from_spec() -> bool {
        true
    }

    open spec fn from_spec(error: cosmwasm_std::StdError) -> ContractError {
        ContractError::Std(error)
    }
}

} // verus!
