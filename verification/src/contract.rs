//! The operations of the ledger: what a call checks, what it writes and what
//! it answers.
use crate::error::ContractError;
use crate::host::{BankMsg, MessageInfo, Response, ResponseView, TransferView};
use crate::ledger::{lists_all, Ledger};
use crate::msg::{
    ExecuteMsg, GetAllPollsResponse, GetPollResponse, GetUserVoteResponse, InstantiateMsg, QueryMsg,
    QueryResponse,
};
use crate::state::{
    ballot_view, coins_view, covers_fee, fee_covered, join_labels, joined, labels_view, poll_view,
    polls_view, Ballot, Coin, CoinView, Config, ConfigView, Poll, MAX_OPTIONS,
};
use crate::store::{
    addr_validate, entries_view, fits_key, load_all_polls, load_config, may_load_ballot,
    may_load_poll, save_ballot, save_config, save_poll, set_contract_version, Store,
    MAX_VOTER_BYTES,
};
use crate::tally::{can_take_vote, slot_of};
use cosmwasm_std::{Env, StdError};
use vstd::prelude::*;

verus! {

/// The name under which the ledger registers itself with the host.
pub const CONTRACT_NAME: &'static str = "crates.io:cw_contract";

/// The version under which the ledger registers itself with the host.
pub const CONTRACT_VERSION: &'static str = "0.1.0";

/// The administrator that a set-up names: the given one, else the caller.
pub open spec fn resolved_admin(sender: Seq<char>, admin: Option<String>) -> Seq<char> {
    match admin {
        Some(named) => named@,
        None => sender,
    }
}

/// What a successful set-up answers with.
pub open spec fn instantiate_response(admin: Seq<char>) -> ResponseView {
    ResponseView {
        messages: Seq::empty(),
        attributes: seq![("method"@, "instantiate"@), ("admin"@, admin)],
    }
}

/// The outcome of a set-up. `before` and `after` are the ledger around the
/// call.
pub open spec fn instantiate_outcome(
    before: Ledger,
    after: Ledger,
    admin: Seq<char>,
    funds: Seq<CoinView>,
    res: Result<Response, ContractError>,
) -> bool {
    match res {
        Ok(response) => {
            &&& after == before.with_config(ConfigView { admin, fee: funds[0] })
            &&& response@ == instantiate_response(admin)
        },
        Err(ContractError::Std(_)) => after == before,
        Err(_) => false,
    }
}

/// The outcome of a set-up once the host has answered for the
/// administrator's identity: with its fault and nothing written where it
/// rejects the identity, with the configuration written where it accepts.
pub open spec fn configure_outcome(
    before: Ledger,
    after: Ledger,
    validated: Result<String, StdError>,
    fee: CoinView,
    res: Result<Response, ContractError>,
) -> bool {
    match validated {
        Ok(admin) => {
            &&& res matches Ok(response) && response@ == instantiate_response(admin@)
            &&& after == before.with_config(ConfigView { admin: admin@, fee })
        },
        Err(e) => {
            &&& res == Err::<Response, ContractError>(ContractError::Std(e))
            &&& after == before
        },
    }
}

/// The identity that a set-up hands to the host's address check: the
/// administrator that the message names, else the caller.
pub fn chosen_admin(sender: String, named: Option<String>) -> (r: String)
    ensures
        r@ == resolved_admin(sender@, named),
{
    match named {
        Some(admin) => admin,
        None => sender,
    }
}

/// Ends a set-up with the host's answer for the administrator's identity: a
/// rejected identity ends it with the host's fault and nothing written, an
/// accepted one becomes the administrator, with `fee` as the fee.
pub fn configure(store: &mut Store, validated: Result<String, StdError>, fee: Coin) -> (res: Result<
    Response,
    ContractError,
>)
    ensures
        configure_outcome(old(store).ledger(), final(store).ledger(), validated, fee@, res),
        old(store).polls_intact() ==> final(store).polls_intact(),
        old(store).ballots_intact() ==> final(store).ballots_intact(),
{
    let admin = match validated {
        Ok(admin) => admin,
        Err(e) => {
            return Err(ContractError::Std(e));
        },
    };
    let config = Config { admin, fee };
    match save_config(store, &config) {
        Ok(_) => {},
        Err(e) => {
            return Err(ContractError::Std(e));
        },
    }
    let response = Response::new().add_attribute(
        "method",
        "instantiate".to_owned(),
    ).add_attribute("admin", config.admin);
    proof {
        assert(response@.attributes =~= instantiate_response(config.admin@).attributes);
    }
    Ok(response)
}

/// Sets the ledger up: registers name and version with the host, and
/// configures the administrator and the fee. The administrator is the one
/// that `msg` names, else the caller; the fee is the first coin attached.
///
/// The host decides whether the administrator's identity is valid. If it is
/// not, the call ends with the host's fault as [`ContractError::Std`] and
/// the ledger is as it was; [`configure`] says so for each answer.
pub fn instantiate(store: &mut Store, _env: Env, info: MessageInfo, msg: InstantiateMsg) -> (res:
    Result<Response, ContractError>)
    requires
        info.funds@.len() > 0,
    ensures
        instantiate_outcome(
            old(store).ledger(),
            final(store).ledger(),
            resolved_admin(info.sender@, msg.admin),
            coins_view(info.funds@),
            res,
        ),
        old(store).polls_intact() ==> final(store).polls_intact(),
        old(store).ballots_intact() ==> final(store).ballots_intact(),
{
    match set_contract_version(store, CONTRACT_NAME, CONTRACT_VERSION) {
        Ok(_) => {},
        Err(e) => {
            return Err(ContractError::Std(e));
        },
    }
    let fee = info.funds[0].duplicate();
    let admin = chosen_admin(info.sender, msg.admin);
    let validated = addr_validate(store, &admin);
    configure(store, validated, fee)
}

/// What a successful vote answers with.
pub open spec fn vote_response(
    poll_id: Seq<char>,
    voter: Seq<char>,
    vote: Seq<char>,
) -> ResponseView {
    ResponseView {
        messages: Seq::empty(),
        attributes: seq![
            ("action"@, "vote"@),
            ("poll_id"@, poll_id),
            ("voter"@, voter),
            ("vote"@, vote),
        ],
    }
}

/// Whether the counts of the poll can take `vote` from `voter`, where the
/// vote is one that the ledger accepts. A ledger whose ballots match its
/// counts meets this as long as the count that grows stays in range.
pub open spec fn vote_fits(
    ledger: Ledger,
    voter: Seq<char>,
    poll_id: Seq<char>,
    vote: Seq<char>,
) -> bool {
    let options = ledger.polls[poll_id].options;
    ledger.polls.contains_key(poll_id) && ledger.polls[poll_id].is_active && slot_of(options, vote)
        is Some ==> can_take_vote(options, ledger.ballot_of(voter, poll_id), vote)
}

/// The outcome of a vote. `before` and `after` are the ledger around the
/// call; `polls_intact` and `ballots_intact` say whether the store held
/// nothing but polls and ballots in their places. Where it did, a vote ends
/// with a fault of the store on no input.
pub open spec fn vote_outcome(
    before: Ledger,
    polls_intact: bool,
    ballots_intact: bool,
    after: Ledger,
    voter: Seq<char>,
    poll_id: Seq<char>,
    vote: Seq<char>,
    res: Result<Response, ContractError>,
) -> bool {
    match res {
        Ok(response) => {
            &&& before.polls.contains_key(poll_id)
            &&& before.polls[poll_id].is_active
            &&& slot_of(before.polls[poll_id].options, vote) is Some
            &&& after == before.after_vote(voter, poll_id, vote)
            &&& response@ == vote_response(poll_id, voter, vote)
        },
        Err(ContractError::PollNotFound { poll_id: missing }) => {
            &&& !before.polls.contains_key(poll_id)
            &&& missing@ == poll_id
            &&& after == before
        },
        Err(ContractError::PollClosed { poll_id: closed }) => {
            &&& before.polls.contains_key(poll_id)
            &&& !before.polls[poll_id].is_active
            &&& closed@ == poll_id
            &&& after == before
        },
        Err(ContractError::InvalidVote {  }) => {
            &&& before.polls.contains_key(poll_id)
            &&& before.polls[poll_id].is_active
            &&& slot_of(before.polls[poll_id].options, vote) is None
            &&& after == before
        },
        Err(ContractError::Std(_)) => {
            &&& after == before
            &&& if before.polls.contains_key(poll_id) {
                &&& before.polls[poll_id].is_active
                &&& slot_of(before.polls[poll_id].options, vote) is Some
                &&& before.ballot_of(voter, poll_id) is None
                &&& !ballots_intact
            } else {
                !polls_intact
            }
        },
        Err(_) => false,
    }
}

/// What a look-up of a poll comes to: the poll that was found,
/// [`ContractError::PollNotFound`] with the identifier where the key was
/// free, and the store's fault where the store failed.
pub fn found_poll(found: Result<Option<Poll>, StdError>, poll_id: String) -> (res: Result<
    Poll,
    ContractError,
>)
    ensures
        match found {
            Ok(Some(poll)) => res == Ok::<Poll, ContractError>(poll),
            Ok(None) => res == Err::<Poll, ContractError>(
                ContractError::PollNotFound { poll_id },
            ),
            Err(e) => res == Err::<Poll, ContractError>(ContractError::Std(e)),
        },
{
    match found {
        Ok(Some(poll)) => Ok(poll),
        Ok(None) => Err(ContractError::PollNotFound { poll_id }),
        Err(e) => Err(ContractError::Std(e)),
    }
}

/// Counts the caller's vote in the poll and records it as their ballot. A
/// voter who votes again moves their one vote; the same label again changes
/// no count.
///
/// The checks come before any write, and no error leaves anything written.
/// The call ends with [`ContractError::Std`] only where the store holds, in
/// the place of the poll or of the ballot, what is none.
pub fn execute_vote(store: &mut Store, info: MessageInfo, poll_id: String, vote: String) -> (res:
    Result<Response, ContractError>)
    requires
        fits_key(info.sender@),
        vote_fits(old(store).ledger(), info.sender@, poll_id@, vote@),
    ensures
        vote_outcome(
            old(store).ledger(),
            old(store).polls_intact(),
            old(store).ballots_intact(),
            final(store).ledger(),
            info.sender@,
            poll_id@,
            vote@,
            res,
        ),
        old(store).polls_intact() ==> final(store).polls_intact(),
        old(store).ballots_intact() ==> final(store).ballots_intact(),
{
    let found = may_load_poll(store, &poll_id);
    let mut poll = match found_poll(found, poll_id.clone()) {
        Ok(poll) => poll,
        Err(e) => {
            return Err(e);
        },
    };
    if !poll.is_active {
        return Err(ContractError::PollClosed { poll_id });
    }
    if poll.position(&vote).is_none() {
        return Err(ContractError::InvalidVote {  });
    }
    let prior = match may_load_ballot(store, &info.sender, &poll_id) {
        Ok(prior) => prior,
        Err(e) => {
            return Err(ContractError::Std(e));
        },
    };
    poll.record_vote(&prior, &vote);
    let ballot = Ballot { option: vote.clone() };
    match save_ballot(store, &info.sender, &poll_id, &ballot) {
        Ok(_) => {},
        Err(e) => {
            return Err(ContractError::Std(e));
        },
    }
    match save_poll(store, &poll_id, &poll) {
        Ok(_) => {},
        Err(e) => {
            return Err(ContractError::Std(e));
        },
    }
    let response = Response::new().add_attribute("action", "vote".to_owned()).add_attribute(
        "poll_id",
        poll_id,
    ).add_attribute("voter", info.sender).add_attribute("vote", vote);
    proof {
        assert(response@.attributes =~= vote_response(poll_id@, info.sender@, vote@).attributes);
    }
    Ok(response)
}

/// What a successful creation answers with.
pub open spec fn create_poll_response(
    poll_id: Seq<char>,
    creator: Seq<char>,
    question: Seq<char>,
    labels: Seq<Seq<char>>,
) -> ResponseView {
    ResponseView {
        messages: Seq::empty(),
        attributes: seq![
            ("action"@, "create_poll"@),
            ("poll_id"@, poll_id),
            ("creator"@, creator),
            ("question"@, question),
            ("options"@, joined(labels, ", "@)),
            ("is_active"@, "true"@),
        ],
    }
}

/// The outcome of a creation. `before` and `after` are the ledger around the
/// call.
pub open spec fn create_poll_outcome(
    before: Ledger,
    after: Ledger,
    creator: Seq<char>,
    funds: Seq<CoinView>,
    poll_id: Seq<char>,
    question: Seq<char>,
    labels: Seq<Seq<char>>,
    res: Result<Response, ContractError>,
) -> bool {
    match res {
        Ok(response) => {
            &&& before.config is Some
            &&& fee_covered(funds, before.config->Some_0.fee)
            &&& labels.len() <= MAX_OPTIONS
            &&& after == before.after_create(creator, poll_id, question, labels)
            &&& response@ == create_poll_response(poll_id, creator, question, labels)
        },
        Err(ContractError::InsufficientFunds {  }) => {
            &&& before.config is Some
            &&& !fee_covered(funds, before.config->Some_0.fee)
            &&& after == before
        },
        Err(ContractError::TooManyOptions {  }) => {
            &&& before.config is Some
            &&& fee_covered(funds, before.config->Some_0.fee)
            &&& labels.len() > MAX_OPTIONS
            &&& after == before
        },
        Err(ContractError::Std(_)) => {
            &&& before.config is None
            &&& after == before
        },
        Err(_) => false,
    }
}

/// Creates an active poll with the given options, each without votes, for
/// the caller, who must have attached the configured fee. A poll that
/// stands under the identifier already is replaced.
///
/// The payment is checked first, the number of options second. Without a
/// configuration, and only then, the call ends with the store's fault as
/// [`ContractError::Std`]; no error leaves anything written.
pub fn execute_create_poll(
    store: &mut Store,
    info: MessageInfo,
    poll_id: String,
    question: String,
    options: Vec<String>,
) -> (res: Result<Response, ContractError>)
    ensures
        create_poll_outcome(
            old(store).ledger(),
            final(store).ledger(),
            info.sender@,
            coins_view(info.funds@),
            poll_id@,
            question@,
            labels_view(options@),
            res,
        ),
        old(store).polls_intact() ==> final(store).polls_intact(),
        old(store).ballots_intact() ==> final(store).ballots_intact(),
{
    let config = match load_config(store) {
        Ok(config) => config,
        Err(e) => {
            return Err(ContractError::Std(e));
        },
    };
    if !covers_fee(&info.funds, &config.fee) {
        return Err(ContractError::InsufficientFunds {  });
    }
    if options.len() > MAX_OPTIONS {
        return Err(ContractError::TooManyOptions {  });
    }
    let labels = join_labels(&options, ", ");
    let poll = Poll::new(info.sender.clone(), question.clone(), options);
    match save_poll(store, &poll_id, &poll) {
        Ok(_) => {},
        Err(e) => {
            return Err(ContractError::Std(e));
        },
    }
    let response = Response::new().add_attribute(
        "action",
        "create_poll".to_owned(),
    ).add_attribute("poll_id", poll_id).add_attribute("creator", info.sender).add_attribute(
        "question",
        question,
    ).add_attribute("options", labels).add_attribute("is_active", "true".to_owned());
    proof {
        assert(response@.attributes =~= create_poll_response(
            poll_id@,
            info.sender@,
            question@,
            labels_view(options@),
        ).attributes);
    }
    Ok(response)
}

/// What a successful closure answers with: the fee goes to the poll's
/// creator.
pub open spec fn close_poll_response(
    poll_id: Seq<char>,
    creator: Seq<char>,
    fee: CoinView,
) -> ResponseView {
    ResponseView {
        messages: seq![TransferView { to_address: creator, amount: seq![fee] }],
        attributes: seq![("action"@, "close_poll"@), ("poll_id"@, poll_id)],
    }
}

/// Whether `caller` may close a poll of `creator` under `config`.
pub open spec fn may_close(caller: Seq<char>, creator: Seq<char>, config: ConfigView) -> bool {
    caller == creator || caller == config.admin
}

/// The outcome of a closure. `before` and `after` are the ledger around the
/// call; `polls_intact` says whether the store held nothing but polls in
/// their place.
pub open spec fn close_poll_outcome(
    before: Ledger,
    polls_intact: bool,
    after: Ledger,
    caller: Seq<char>,
    poll_id: Seq<char>,
    res: Result<Response, ContractError>,
) -> bool {
    match res {
        Ok(response) => {
            &&& before.polls.contains_key(poll_id)
            &&& before.config is Some
            &&& may_close(caller, before.polls[poll_id].creator, before.config->Some_0)
            &&& after == before.after_close(poll_id)
            &&& response@ == close_poll_response(
                poll_id,
                before.polls[poll_id].creator,
                before.config->Some_0.fee,
            )
        },
        Err(ContractError::PollNotFound { poll_id: missing }) => {
            &&& !before.polls.contains_key(poll_id)
            &&& missing@ == poll_id
            &&& after == before
        },
        Err(ContractError::Unauthorized {  }) => {
            &&& before.polls.contains_key(poll_id)
            &&& before.config is Some
            &&& !may_close(caller, before.polls[poll_id].creator, before.config->Some_0)
            &&& after == before
        },
        Err(ContractError::Std(_)) => {
            &&& after == before
            &&& if before.polls.contains_key(poll_id) {
                before.config is None
            } else {
                !polls_intact
            }
        },
        Err(_) => false,
    }
}

/// Closes the poll for its creator or the administrator and has the fee
/// paid to the creator: the fee that is configured now, whatever was paid
/// at creation. The counts stay as they are. A poll that is closed already
/// is closed again, with another payment.
///
/// No error leaves anything written. The call ends with the store's fault
/// as [`ContractError::Std`] only without a configuration and where the
/// store holds, in the place of the poll, what is none.
pub fn execute_close_poll(store: &mut Store, info: MessageInfo, poll_id: String) -> (res: Result<
    Response,
    ContractError,
>)
    ensures
        close_poll_outcome(
            old(store).ledger(),
            old(store).polls_intact(),
            final(store).ledger(),
            info.sender@,
            poll_id@,
            res,
        ),
        old(store).polls_intact() ==> final(store).polls_intact(),
        old(store).ballots_intact() ==> final(store).ballots_intact(),
{
    let found = may_load_poll(store, &poll_id);
    let mut poll = match found_poll(found, poll_id.clone()) {
        Ok(poll) => poll,
        Err(e) => {
            return Err(e);
        },
    };
    let config = match load_config(store) {
        Ok(config) => config,
        Err(e) => {
            return Err(ContractError::Std(e));
        },
    };
    if info.sender != poll.creator && info.sender != config.admin {
        return Err(ContractError::Unauthorized {  });
    }
    poll.is_active = false;
    match save_poll(store, &poll_id, &poll) {
        Ok(_) => {},
        Err(e) => {
            return Err(ContractError::Std(e));
        },
    }
    let mut amount: Vec<Coin> = Vec::new();
    amount.push(config.fee);
    let bank_msg = BankMsg::Send { to_address: poll.creator, amount };
    proof {
        assert(bank_msg@.amount =~= seq![config.fee@]);
    }
    let response = Response::new().add_message(bank_msg).add_attribute(
        "action",
        "close_poll".to_owned(),
    ).add_attribute("poll_id", poll_id);
    proof {
        let expected = close_poll_response(poll_id@, poll.creator@, config.fee@);
        assert(response@.attributes =~= expected.attributes);
        assert(response@.messages =~= expected.messages);
    }
    Ok(response)
}

/// Whether a call can be served: a vote must fit the counts and the voter's
/// identity the key of a ballot. Every other call can.
pub open spec fn execute_fits(ledger: Ledger, sender: Seq<char>, msg: ExecuteMsg) -> bool {
    match msg {
        ExecuteMsg::Vote { poll_id, vote } => fits_key(sender) && vote_fits(
            ledger,
            sender,
            poll_id@,
            vote@,
        ),
        _ => true,
    }
}

/// The outcome of a call: that of the operation which the message names.
pub open spec fn execute_outcome(
    before: Ledger,
    polls_intact: bool,
    ballots_intact: bool,
    after: Ledger,
    sender: Seq<char>,
    funds: Seq<CoinView>,
    msg: ExecuteMsg,
    res: Result<Response, ContractError>,
) -> bool {
    match msg {
        ExecuteMsg::CreatePoll { poll_id, question, options } => create_poll_outcome(
            before,
            after,
            sender,
            funds,
            poll_id@,
            question@,
            labels_view(options@),
            res,
        ),
        ExecuteMsg::Vote { poll_id, vote } => vote_outcome(
            before,
            polls_intact,
            ballots_intact,
            after,
            sender,
            poll_id@,
            vote@,
            res,
        ),
        ExecuteMsg::ClosePoll { poll_id } => close_poll_outcome(
            before,
            polls_intact,
            after,
            sender,
            poll_id@,
            res,
        ),
    }
}

/// Serves one call that changes the ledger.
pub fn execute(store: &mut Store, _env: Env, info: MessageInfo, msg: ExecuteMsg) -> (res: Result<
    Response,
    ContractError,
>)
    requires
        execute_fits(old(store).ledger(), info.sender@, msg),
    ensures
        execute_outcome(
            old(store).ledger(),
            old(store).polls_intact(),
            old(store).ballots_intact(),
            final(store).ledger(),
            info.sender@,
            coins_view(info.funds@),
            msg,
            res,
        ),
        old(store).polls_intact() ==> final(store).polls_intact(),
        old(store).ballots_intact() ==> final(store).ballots_intact(),
{
    match msg {
        ExecuteMsg::CreatePoll { poll_id, question, options } => execute_create_poll(
            store,
            info,
            poll_id,
            question,
            options,
        ),
        ExecuteMsg::Vote { poll_id, vote } => execute_vote(store, info, poll_id, vote),
        ExecuteMsg::ClosePoll { poll_id } => execute_close_poll(store, info, poll_id),
    }
}

/// Whether the call can be served, found out from the store.
fn fits(store: &Store, info: &MessageInfo, msg: &ExecuteMsg) -> (r: bool)
    ensures
        r == execute_fits(store.ledger(), info.sender@, *msg),
{
    match msg {
        ExecuteMsg::Vote { poll_id, vote } => {
            if info.sender.as_str().as_bytes().len() > MAX_VOTER_BYTES {
                return false;
            }
            let poll = match may_load_poll(store, poll_id) {
                Ok(Some(poll)) => poll,
                _ => {
                    return true;
                },
            };
            if !poll.is_active || poll.position(vote).is_none() {
                return true;
            }
            let prior = match may_load_ballot(store, &info.sender, poll_id) {
                Ok(prior) => prior,
                Err(_) => None,
            };
            poll.can_take(&prior, vote)
        },
        _ => true,
    }
}

/// Serves one call that changes the ledger, if it can be served: `None`,
/// with nothing written, for a vote that the counts cannot take or whose
/// voter's identity is too long for a ballot's key.
pub fn try_execute(store: &mut Store, env: Env, info: MessageInfo, msg: ExecuteMsg) -> (res: Option<
    Result<Response, ContractError>,
>)
    ensures
        match res {
            Some(served) => execute_fits(old(store).ledger(), info.sender@, msg)
                && execute_outcome(
                old(store).ledger(),
                old(store).polls_intact(),
                old(store).ballots_intact(),
                final(store).ledger(),
                info.sender@,
                coins_view(info.funds@),
                msg,
                served,
            ),
            None => !execute_fits(old(store).ledger(), info.sender@, msg) && final(store).ledger()
                == old(store).ledger(),
        },
        old(store).polls_intact() ==> final(store).polls_intact(),
        old(store).ballots_intact() ==> final(store).ballots_intact(),
{
    if fits(store, &info, &msg) {
        Some(execute(store, env, info, msg))
    } else {
        None
    }
}

/// The answer to a listing: every poll once, in ascending order of the
/// identifiers' bytes. The listing fails where the store holds something in
/// the place of the polls that is no poll, and only there; `polls_intact`
/// says whether it holds no such thing.
pub open spec fn all_polls_answer(
    ledger: Ledger,
    polls_intact: bool,
    res: Result<GetAllPollsResponse, StdError>,
) -> bool {
    match res {
        Ok(response) => polls_intact && lists_all(ledger.polls, polls_view(response.polls@)),
        Err(_) => !polls_intact,
    }
}

/// The answer to a look-up: the poll under the identifier, or none where
/// the identifier is free. The look-up fails only where the store holds
/// under the identifier what is no poll.
pub open spec fn poll_answer(
    ledger: Ledger,
    polls_intact: bool,
    poll_id: Seq<char>,
    res: Result<GetPollResponse, StdError>,
) -> bool {
    match res {
        Ok(response) => poll_view(response.poll) == ledger.poll_of(poll_id),
        Err(_) => !ledger.polls.contains_key(poll_id) && !polls_intact,
    }
}

/// The answer to the question how somebody voted: their ballot, or none.
pub open spec fn user_vote_answer(
    ledger: Ledger,
    poll_id: Seq<char>,
    user: Seq<char>,
    res: Result<GetUserVoteResponse, StdError>,
) -> bool {
    res matches Ok(response) && ballot_view(response.vote) == ledger.ballot_of(user, poll_id)
}

/// Every poll, in ascending order of the identifiers' bytes. The query
/// fails where an entry in the place of the polls does not decode, and only
/// there.
pub fn get_all_polls(store: &Store) -> (res: Result<GetAllPollsResponse, StdError>)
    ensures
        all_polls_answer(store.ledger(), store.polls_intact(), res),
{
    let entries = match load_all_polls(store) {
        Ok(entries) => entries,
        Err(e) => {
            return Err(e);
        },
    };
    let ghost all = entries@;
    let mut polls: Vec<Poll> = Vec::new();
    for entry in iter: entries
        invariant
            iter.seq() == all,
            polls.len() == iter.index(),
            forall|i: int| 0 <= i < polls.len() ==> (#[trigger] polls[i]) == all[i].1,
    {
        polls.push(entry.1);
    }
    proof {
        let ids = Seq::new(all.len(), |i: int| all[i].0@);
        assert(ids.zip_with(polls_view(polls@)) =~= entries_view(all));
    }
    Ok(GetAllPollsResponse { polls })
}

/// The poll under the identifier, or none where the identifier is free: a
/// missing poll is no error. The query fails only where the store holds
/// under the identifier what is no poll.
pub fn get_poll(store: &Store, poll_id: String) -> (res: Result<GetPollResponse, StdError>)
    ensures
        poll_answer(store.ledger(), store.polls_intact(), poll_id@, res),
{
    match may_load_poll(store, &poll_id) {
        Ok(poll) => Ok(GetPollResponse { poll }),
        Err(e) => Err(e),
    }
}

/// The ballot of `user` in the poll, or none where they have not voted. It
/// never fails: an entry that the store cannot give counts as none.
pub fn get_user_vote(store: &Store, poll_id: String, user: String) -> (res: Result<
    GetUserVoteResponse,
    StdError,
>)
    requires
        fits_key(user@),
    ensures
        user_vote_answer(store.ledger(), poll_id@, user@, res),
{
    let vote = match may_load_ballot(store, &user, &poll_id) {
        Ok(vote) => vote,
        Err(_) => None,
    };
    Ok(GetUserVoteResponse { vote })
}

/// Whether a query can be served: the identity of a voter asked for must fit
/// the key of a ballot.
pub open spec fn query_fits(msg: QueryMsg) -> bool {
    msg matches QueryMsg::GetUserVote { user, poll_id } ==> fits_key(user@)
}

/// The answer to a query: that of the query's own function, in the variant
/// of the query. `polls_intact` says whether the store holds nothing but
/// polls in their place.
pub open spec fn query_answer(
    ledger: Ledger,
    polls_intact: bool,
    msg: QueryMsg,
    res: Result<QueryResponse, StdError>,
) -> bool {
    match msg {
        QueryMsg::GetAllPolls {  } => match res {
            Ok(QueryResponse::AllPolls(response)) => all_polls_answer(
                ledger,
                polls_intact,
                Ok(response),
            ),
            Ok(_) => false,
            Err(e) => all_polls_answer(ledger, polls_intact, Err(e)),
        },
        QueryMsg::GetPoll { poll_id } => match res {
            Ok(QueryResponse::Poll(response)) => poll_answer(
                ledger,
                polls_intact,
                poll_id@,
                Ok(response),
            ),
            Ok(_) => false,
            Err(e) => poll_answer(ledger, polls_intact, poll_id@, Err(e)),
        },
        QueryMsg::GetUserVote { user, poll_id } => match res {
            Ok(QueryResponse::UserVote(response)) => user_vote_answer(
                ledger,
                poll_id@,
                user@,
                Ok(response),
            ),
            Ok(_) => false,
            Err(e) => user_vote_answer(ledger, poll_id@, user@, Err(e)),
        },
    }
}

/// Serves one query.
pub fn query(store: &Store, _env: Env, msg: QueryMsg) -> (res: Result<QueryResponse, StdError>)
    requires
        query_fits(msg),
    ensures
        query_answer(store.ledger(), store.polls_intact(), msg, res),
{
    match msg {
        QueryMsg::GetAllPolls {  } => match get_all_polls(store) {
            Ok(response) => Ok(QueryResponse::AllPolls(response)),
            Err(e) => Err(e),
        },
        QueryMsg::GetPoll { poll_id } => match get_poll(store, poll_id) {
            Ok(response) => Ok(QueryResponse::Poll(response)),
            Err(e) => Err(e),
        },
        QueryMsg::GetUserVote { user, poll_id } => match get_user_vote(store, poll_id, user) {
            Ok(response) => Ok(QueryResponse::UserVote(response)),
            Err(e) => Err(e),
        },
    }
}

} // verus!
