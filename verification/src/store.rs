//! Access to the host: its key-value store, in which the ledger lives, and its
//! address check. Nothing in this file is proved; each function states what
//! the call inside it is relied on to do.
use crate::ledger::{is_listing, Ledger};
use crate::state::{Ballot, Coin, Config, ConfigView, Poll, PollView};
use cosmwasm_std::{Addr, Order, StdError};
use vstd::prelude::*;

verus! {

/// The key of the configuration.
pub const CONFIG_KEY: &'static str = "config";

/// The namespace of the polls.
pub const POLLS_NAMESPACE: &'static str = "polls";

/// The namespace of the ballots.
pub const BALLOTS_NAMESPACE: &'static str = "ballots";

/// The longest voter identity, in bytes, that a ballot's key can hold.
pub const MAX_VOTER_BYTES: usize = 0xFFFF;

/// A configuration as it is encoded: administrator and fee.
type ConfigRecord = (String, cosmwasm_std::Coin);

/// A poll as it is encoded: creator, question, options, whether active.
type PollRecord = (String, String, Vec<(String, u64)>, bool);

/// The place of the configuration in the store.
type ConfigItem = cw_storage_plus::Item<ConfigRecord>;

/// The place of the polls in the store, by identifier.
type PollEntries = cw_storage_plus::Map<&'static str, PollRecord>;

/// The place of the ballots in the store, by voter and poll identifier. A
/// ballot is encoded as its label.
type BallotEntries = cw_storage_plus::Map<(Addr, &'static str), String>;

/// The host's store and address check, for the time of one call. A query
/// takes it by shared reference and cannot write.
#[verifier::external_body]
pub struct Store<'a> {
    pub storage: &'a mut dyn cosmwasm_std::Storage,
    pub api: &'a dyn cosmwasm_std::Api,
}

/// The configuration that the store holds under [`CONFIG_KEY`], if one is
/// there and decodes.
pub uninterp spec fn stored_config(store: Store) -> Option<ConfigView>;

/// The polls that the store holds under [`POLLS_NAMESPACE`], by identifier:
/// every entry that decodes.
pub uninterp spec fn stored_polls(store: Store) -> Map<Seq<char>, PollView>;

/// Whether every entry that the store holds under [`POLLS_NAMESPACE`]
/// decodes: its key as text and its value as a poll.
pub uninterp spec fn polls_decode(store: Store) -> bool;

/// The ballots that the store holds under [`BALLOTS_NAMESPACE`], by voter and
/// poll identifier: every entry that decodes.
pub uninterp spec fn stored_ballots(store: Store) -> Map<(Seq<char>, Seq<char>), Seq<char>>;

/// Whether every entry that the store holds under [`BALLOTS_NAMESPACE`]
/// decodes as a ballot.
pub uninterp spec fn ballots_decode(store: Store) -> bool;

impl<'a> Store<'a> {
    /// The ledger that the store holds.
    pub open spec fn ledger(self) -> Ledger {
        Ledger {
            config: stored_config(self),
            polls: stored_polls(self),
            ballots: stored_ballots(self),
        }
    }

    /// Whether the store holds nothing in the place of the polls that is no
    /// poll. No operation of the ledger puts such a thing there.
    pub open spec fn polls_intact(self) -> bool {
        polls_decode(self)
    }

    /// Whether the store holds nothing in the place of the ballots that is
    /// no ballot. No operation of the ledger puts such a thing there.
    pub open spec fn ballots_intact(self) -> bool {
        ballots_decode(self)
    }
}

/// Whether a voter's identity fits into a ballot's key.
pub open spec fn fits_key(voter: Seq<char>) -> bool {
    vstd::utf8::encode_utf8(voter).len() <= MAX_VOTER_BYTES
}

/// The listed polls as identifiers and views.
pub open spec fn entries_view(entries: Seq<(String, Poll)>) -> Seq<(Seq<char>, PollView)> {
    Seq::new(entries.len(), |i: int| (entries[i].0@, entries[i].1@))
}

/// `cw_storage_plus::Item::load` at [`CONFIG_KEY`]. It gives the stored
/// configuration where there is one, and fails where the key is free or what
/// it holds does not decode.
#[verifier::external_body]
pub(crate) fn load_config(store: &Store) -> (res: Result<Config, StdError>)
    ensures
        match res {
            Ok(config) => stored_config(*store) == Some(config@),
            Err(_) => stored_config(*store) is None,
        },
{
    let (admin, fee) = ConfigItem::new(CONFIG_KEY).load(store.storage)?;
    Ok(Config { admin, fee: Coin { denom: fee.denom, amount: fee.amount.u128() } })
}

/// `cw_storage_plus::Item::save` at [`CONFIG_KEY`]. It encodes and then
/// writes, and fails only where the encoder does; the encoder has no failing
/// path for text, for tuples and for a coin, whose amount it writes as text.
/// Afterwards the key holds what decodes to `config`. No entry in the place of the polls
/// or of the ballots has that key.
#[verifier::external_body]
pub(crate) fn save_config(store: &mut Store, config: &Config) -> (res: Result<(), StdError>)
    ensures
        res is Ok,
        stored_config(*final(store)) == Some(config@),
        stored_polls(*final(store)) == stored_polls(*old(store)),
        polls_decode(*final(store)) == polls_decode(*old(store)),
        stored_ballots(*final(store)) == stored_ballots(*old(store)),
        ballots_decode(*final(store)) == ballots_decode(*old(store)),
{
    let fee = cosmwasm_std::Coin::new(config.fee.amount, config.fee.denom.clone());
    ConfigItem::new(CONFIG_KEY).save(store.storage, &(config.admin.clone(), fee))
}

/// `cw_storage_plus::Map::may_load` on the polls. It gives the poll under the
/// identifier, `None` where the key is free, and fails where what the key
/// holds does not decode, and for no other reason.
#[verifier::external_body]
pub(crate) fn may_load_poll(store: &Store, poll_id: &String) -> (res: Result<
    Option<Poll>,
    StdError,
>)
    ensures
        match res {
            Ok(Some(poll)) => stored_polls(*store).contains_key(poll_id@) && stored_polls(
                *store,
            )[poll_id@] == poll@,
            Ok(None) => !stored_polls(*store).contains_key(poll_id@),
            Err(_) => !stored_polls(*store).contains_key(poll_id@) && !polls_decode(*store),
        },
{
    let found = PollEntries::new(POLLS_NAMESPACE).may_load(store.storage, poll_id.as_str())?;
    Ok(found.map(|(creator, question, options, is_active)| Poll {
        creator,
        question,
        options,
        is_active,
    }))
}

/// `cw_storage_plus::Map::save` on the polls. It encodes and then writes, and
/// fails only where the encoder does; the encoder has no failing path for
/// text, integers, booleans, sequences and tuples. Afterwards the poll stands
/// under the identifier, in place of whatever was there, and decodes; every
/// other entry is as it was. The key differs from that of every other poll,
/// of every ballot and of the configuration.
#[verifier::external_body]
pub(crate) fn save_poll(store: &mut Store, poll_id: &String, poll: &Poll) -> (res: Result<
    (),
    StdError,
>)
    ensures
        res is Ok,
        stored_polls(*final(store)) == stored_polls(*old(store)).insert(poll_id@, poll@),
        polls_decode(*old(store)) ==> polls_decode(*final(store)),
        stored_config(*final(store)) == stored_config(*old(store)),
        stored_ballots(*final(store)) == stored_ballots(*old(store)),
        ballots_decode(*final(store)) == ballots_decode(*old(store)),
{
    let record: PollRecord = (
        poll.creator.clone(),
        poll.question.clone(),
        poll.options.clone(),
        poll.is_active,
    );
    PollEntries::new(POLLS_NAMESPACE).save(store.storage, poll_id.as_str(), &record)
}

/// `cw_storage_plus::Map::may_load` on the ballots. It gives the label that
/// the voter has chosen in the poll, `None` where the key is free, and fails
/// where what the key holds does not decode, and for no other reason. The
/// key holds the length of the
/// voter's identity in two bytes; a longer one makes the call panic.
#[verifier::external_body]
pub(crate) fn may_load_ballot(store: &Store, voter: &String, poll_id: &String) -> (res: Result<
    Option<Ballot>,
    StdError,
>)
    requires
        fits_key(voter@),
    ensures
        match res {
            Ok(Some(ballot)) => stored_ballots(*store).contains_key((voter@, poll_id@))
                && stored_ballots(*store)[(voter@, poll_id@)] == ballot@,
            Ok(None) => !stored_ballots(*store).contains_key((voter@, poll_id@)),
            Err(_) => !stored_ballots(*store).contains_key((voter@, poll_id@))
                && !ballots_decode(*store),
        },
{
    let key = (Addr::unchecked(voter.as_str()), poll_id.as_str());
    let found = BallotEntries::new(BALLOTS_NAMESPACE).may_load(store.storage, key)?;
    Ok(found.map(|option| Ballot { option }))
}

/// `cw_storage_plus::Map::save` on the ballots. It encodes and then writes,
/// and fails only where the encoder does; the encoder has no failing path
/// for text. Afterwards the ballot stands under voter and poll, in place of
/// whatever was there, and decodes; every other entry is as it was. The key
/// differs from that of every other ballot, of every entry in the place of
/// the polls and of the configuration. It holds the length of the voter's identity in two bytes; a
/// longer one makes the call panic.
#[verifier::external_body]
pub(crate) fn save_ballot(
    store: &mut Store,
    voter: &String,
    poll_id: &String,
    ballot: &Ballot,
) -> (res: Result<(), StdError>)
    requires
        fits_key(voter@),
    ensures
        res is Ok,
        stored_ballots(*final(store)) == stored_ballots(*old(store)).insert(
            (voter@, poll_id@),
            ballot@,
        ),
        ballots_decode(*old(store)) ==> ballots_decode(*final(store)),
        stored_config(*final(store)) == stored_config(*old(store)),
        stored_polls(*final(store)) == stored_polls(*old(store)),
        polls_decode(*final(store)) == polls_decode(*old(store)),
{
    let key = (Addr::unchecked(voter.as_str()), poll_id.as_str());
    BallotEntries::new(BALLOTS_NAMESPACE).save(store.storage, key, &ballot.option)
}

/// `cw_storage_plus::Map::range` over all polls, ascending, collected. It
/// walks the keys in the order of their bytes and fails at the first entry
/// that does not decode, and for no other reason. A success lists every poll
/// once.
#[verifier::external_body]
pub(crate) fn load_all_polls(store: &Store) -> (res: Result<Vec<(String, Poll)>, StdError>)
    ensures
        match res {
            Ok(entries) => polls_decode(*store) && is_listing(
                stored_polls(*store),
                entries_view(entries@),
            ),
            Err(_) => !polls_decode(*store),
        },
{
    let records = PollEntries::new(POLLS_NAMESPACE)
        .range(store.storage, None, None, Order::Ascending)
        .collect::<Result<Vec<(String, PollRecord)>, StdError>>()?;
    Ok(records.into_iter().map(|(id, (creator, question, options, is_active))| {
        (id, Poll { creator, question, options, is_active })
    }).collect())
}

/// `cw2::set_contract_version`. It encodes the contract's name and version
/// and writes them under a key of its own, and fails only where the encoder
/// does; the encoder has no failing path for a record of two texts. No
/// record of the ledger has that key, and no entry in the place of the polls
/// or of the ballots.
#[verifier::external_body]
pub(crate) fn set_contract_version(store: &mut Store, name: &str, version: &str) -> (res: Result<
    (),
    StdError,
>)
    ensures
        res is Ok,
        stored_config(*final(store)) == stored_config(*old(store)),
        stored_polls(*final(store)) == stored_polls(*old(store)),
        polls_decode(*final(store)) == polls_decode(*old(store)),
        stored_ballots(*final(store)) == stored_ballots(*old(store)),
        ballots_decode(*final(store)) == ballots_decode(*old(store)),
{
    cw2::set_contract_version(store.storage, name, version)
}

/// `cosmwasm_std::Api::addr_validate`. Whether an identity is valid is the
/// host's to say; a valid one comes back as it went in.
#[verifier::external_body]
pub(crate) fn addr_validate(store: &Store, human: &String) -> (res: Result<String, StdError>)
    ensures
        res matches Ok(addr) ==> addr@ == human@,
{
    Ok(store.api.addr_validate(human.as_str())?.into_string())
}

} // verus!
