use cosmwasm_std::testing::{mock_dependencies, mock_env, MockApi, MockStorage};
use cosmwasm_std::Storage;
use cosmwasm_std::StdError;
use poll_ledger::contract::{
    chosen_admin, configure, execute, execute_close_poll, execute_create_poll, execute_vote,
    found_poll, get_all_polls, get_poll, get_user_vote, instantiate, try_execute,
};
use poll_ledger::host::{BankMsg, MessageInfo, Response};
use poll_ledger::msg::{ExecuteMsg, InstantiateMsg};
use poll_ledger::state::{Coin, Poll};
use poll_ledger::store::Store;
use poll_ledger::ContractError;

type Record = (String, String, Vec<(String, u64)>, bool);

fn uatom(amount: u128) -> Coin {
    Coin { denom: "uatom".to_string(), amount }
}

fn caller(sender: &str, funds: Vec<Coin>) -> MessageInfo {
    MessageInfo { sender: sender.to_string(), funds }
}

fn labels(names: &[&str]) -> Vec<String> {
    names.iter().map(|name| name.to_string()).collect()
}

fn set_up(storage: &mut MockStorage, api: &MockApi, fee: u128) -> String {
    let admin = api.addr_make("admin").to_string();
    let mut store = Store { storage, api };
    let msg = InstantiateMsg { admin: Some(admin.clone()) };
    instantiate(&mut store, mock_env(), caller("deployer", vec![uatom(fee)]), msg).unwrap();
    admin
}

fn create(
    store: &mut Store,
    creator: &str,
    funds: Vec<Coin>,
    poll_id: &str,
    options: &[&str],
) -> Result<Response, ContractError> {
    let info = caller(creator, funds);
    execute_create_poll(store, info, poll_id.to_string(), "Q".to_string(), labels(options))
}

fn vote(
    store: &mut Store,
    voter: &str,
    poll_id: &str,
    label: &str,
) -> Result<Response, ContractError> {
    execute_vote(store, caller(voter, vec![]), poll_id.to_string(), label.to_string())
}

fn close(store: &mut Store, sender: &str, poll_id: &str) -> Result<Response, ContractError> {
    execute_close_poll(store, caller(sender, vec![]), poll_id.to_string())
}

fn try_vote(
    store: &mut Store,
    voter: &str,
    poll_id: &str,
    label: &str,
) -> Option<Result<Response, ContractError>> {
    let msg = ExecuteMsg::Vote { poll_id: poll_id.to_string(), vote: label.to_string() };
    try_execute(store, mock_env(), caller(voter, vec![]), msg)
}

fn poll(store: &Store, poll_id: &str) -> Option<Poll> {
    get_poll(store, poll_id.to_string()).unwrap().poll
}

fn counts(store: &Store, poll_id: &str) -> Vec<u64> {
    poll(store, poll_id).unwrap().options.iter().map(|option| option.1).collect()
}

fn ballot(store: &Store, voter: &str, poll_id: &str) -> Option<String> {
    let response = get_user_vote(store, poll_id.to_string(), voter.to_string()).unwrap();
    response.vote.map(|ballot| ballot.option)
}

fn refund(to: &str, coin: Coin) -> Vec<BankMsg> {
    vec![BankMsg::Send { to_address: to.to_string(), amount: vec![coin] }]
}

#[test]
fn full_life_of_a_poll() {
    let mut deps = mock_dependencies();
    set_up(&mut deps.storage, &deps.api, 1000);
    let mut store = Store { storage: &mut deps.storage, api: &deps.api };

    create(&mut store, "creator", vec![uatom(1000)], "poll1", &["A", "B", "C"]).unwrap();
    assert_eq!(
        poll(&store, "poll1"),
        Some(Poll {
            creator: "creator".to_string(),
            question: "Q".to_string(),
            options: vec![("A".to_string(), 0), ("B".to_string(), 0), ("C".to_string(), 0)],
            is_active: true,
        })
    );

    vote(&mut store, "voter", "poll1", "A").unwrap();
    assert_eq!(counts(&store, "poll1"), vec![1, 0, 0]);

    vote(&mut store, "voter", "poll1", "B").unwrap();
    assert_eq!(counts(&store, "poll1"), vec![0, 1, 0]);

    let closed = close(&mut store, "creator", "poll1").unwrap();
    assert_eq!(closed.messages, refund("creator", uatom(1000)));
    assert!(!poll(&store, "poll1").unwrap().is_active);
    assert_eq!(counts(&store, "poll1"), vec![0, 1, 0]);

    let late = vote(&mut store, "voter", "poll1", "C");
    assert_eq!(late, Err(ContractError::PollClosed { poll_id: "poll1".to_string() }));
    assert_eq!(counts(&store, "poll1"), vec![0, 1, 0]);
    assert_eq!(ballot(&store, "voter", "poll1"), Some("B".to_string()));
}

#[test]
fn small_payment_creates_nothing() {
    let mut deps = mock_dependencies();
    set_up(&mut deps.storage, &deps.api, 1000);
    let mut store = Store { storage: &mut deps.storage, api: &deps.api };

    let res = create(&mut store, "creator", vec![uatom(100)], "poll1", &["A", "B"]);
    assert_eq!(res, Err(ContractError::InsufficientFunds {}));
    assert_eq!(poll(&store, "poll1"), None);
    assert_eq!(get_all_polls(&store).unwrap().polls.len(), 0);
}

#[test]
fn payment_must_be_there_and_in_the_fee_denomination() {
    let mut deps = mock_dependencies();
    set_up(&mut deps.storage, &deps.api, 1000);
    let mut store = Store { storage: &mut deps.storage, api: &deps.api };

    let none = create(&mut store, "creator", vec![], "poll1", &["A"]);
    assert_eq!(none, Err(ContractError::InsufficientFunds {}));

    let other = Coin { denom: "uosmo".to_string(), amount: 5000 };
    let wrong = create(&mut store, "creator", vec![other, uatom(1000)], "poll1", &["A"]);
    assert_eq!(wrong, Err(ContractError::InsufficientFunds {}));
    assert_eq!(poll(&store, "poll1"), None);

    assert!(create(&mut store, "creator", vec![uatom(1001)], "poll1", &["A"]).is_ok());
}

#[test]
fn payment_is_checked_before_the_options() {
    let mut deps = mock_dependencies();
    set_up(&mut deps.storage, &deps.api, 1000);
    let mut store = Store { storage: &mut deps.storage, api: &deps.api };

    let eleven = ["1", "2", "3", "4", "5", "6", "7", "8", "9", "10", "11"];
    let res = create(&mut store, "creator", vec![uatom(999)], "poll1", &eleven);
    assert_eq!(res, Err(ContractError::InsufficientFunds {}));
}

#[test]
fn ten_options_pass_and_eleven_do_not() {
    let mut deps = mock_dependencies();
    set_up(&mut deps.storage, &deps.api, 1000);
    let mut store = Store { storage: &mut deps.storage, api: &deps.api };

    let ten = ["1", "2", "3", "4", "5", "6", "7", "8", "9", "10"];
    let res = create(&mut store, "creator", vec![uatom(1000)], "ten", &ten).unwrap();
    assert_eq!(res.attributes[4].key, "options");
    assert_eq!(res.attributes[4].value, "1, 2, 3, 4, 5, 6, 7, 8, 9, 10");
    assert_eq!(counts(&store, "ten"), vec![0; 10]);

    let eleven = ["1", "2", "3", "4", "5", "6", "7", "8", "9", "10", "11"];
    let res = create(&mut store, "creator", vec![uatom(1000)], "eleven", &eleven);
    assert_eq!(res, Err(ContractError::TooManyOptions {}));
    assert_eq!(poll(&store, "eleven"), None);
}

#[test]
fn poll_without_options_takes_no_vote() {
    let mut deps = mock_dependencies();
    set_up(&mut deps.storage, &deps.api, 1000);
    let mut store = Store { storage: &mut deps.storage, api: &deps.api };

    let res = create(&mut store, "creator", vec![uatom(1000)], "bare", &[]).unwrap();
    assert_eq!(res.attributes[4].value, "");
    assert_eq!(vote(&mut store, "voter", "bare", "A"), Err(ContractError::InvalidVote {}));
    assert_eq!(ballot(&store, "voter", "bare"), None);
}

#[test]
fn same_vote_twice_counts_once() {
    let mut deps = mock_dependencies();
    set_up(&mut deps.storage, &deps.api, 1000);
    let mut store = Store { storage: &mut deps.storage, api: &deps.api };
    create(&mut store, "creator", vec![uatom(1000)], "poll1", &["A", "B", "C"]).unwrap();

    vote(&mut store, "voter", "poll1", "B").unwrap();
    assert_eq!(counts(&store, "poll1"), vec![0, 1, 0]);
    assert!(vote(&mut store, "voter", "poll1", "B").is_ok());
    assert_eq!(counts(&store, "poll1"), vec![0, 1, 0]);
    assert_eq!(ballot(&store, "voter", "poll1"), Some("B".to_string()));
}

#[test]
fn switching_moves_one_vote() {
    let mut deps = mock_dependencies();
    set_up(&mut deps.storage, &deps.api, 1000);
    let mut store = Store { storage: &mut deps.storage, api: &deps.api };
    create(&mut store, "creator", vec![uatom(1000)], "poll1", &["A", "B", "C"]).unwrap();

    for voter in ["v1", "v2", "v3"] {
        vote(&mut store, voter, "poll1", "A").unwrap();
    }
    vote(&mut store, "v4", "poll1", "C").unwrap();
    assert_eq!(counts(&store, "poll1"), vec![3, 0, 1]);

    vote(&mut store, "v2", "poll1", "B").unwrap();
    assert_eq!(counts(&store, "poll1"), vec![2, 1, 1]);
    assert_eq!(ballot(&store, "v2", "poll1"), Some("B".to_string()));

    vote(&mut store, "v2", "poll1", "C").unwrap();
    assert_eq!(counts(&store, "poll1"), vec![2, 0, 2]);
    assert_eq!(counts(&store, "poll1").iter().sum::<u64>(), 4);
}

#[test]
fn refused_vote_leaves_ballot_and_counts() {
    let mut deps = mock_dependencies();
    set_up(&mut deps.storage, &deps.api, 1000);
    let mut store = Store { storage: &mut deps.storage, api: &deps.api };
    create(&mut store, "creator", vec![uatom(1000)], "poll1", &["A", "B"]).unwrap();
    vote(&mut store, "voter", "poll1", "A").unwrap();

    assert_eq!(vote(&mut store, "voter", "poll1", "C"), Err(ContractError::InvalidVote {}));
    assert_eq!(counts(&store, "poll1"), vec![1, 0]);
    assert_eq!(ballot(&store, "voter", "poll1"), Some("A".to_string()));

    let missing = vote(&mut store, "voter", "poll2", "A");
    assert_eq!(missing, Err(ContractError::PollNotFound { poll_id: "poll2".to_string() }));
    assert_eq!(ballot(&store, "voter", "poll2"), None);
}

#[test]
fn votes_in_one_poll_leave_the_other_alone() {
    let mut deps = mock_dependencies();
    set_up(&mut deps.storage, &deps.api, 1000);
    let mut store = Store { storage: &mut deps.storage, api: &deps.api };
    create(&mut store, "creator", vec![uatom(1000)], "one", &["A", "B"]).unwrap();
    create(&mut store, "creator", vec![uatom(1000)], "two", &["A", "B"]).unwrap();

    vote(&mut store, "voter", "one", "A").unwrap();
    vote(&mut store, "voter", "two", "B").unwrap();
    vote(&mut store, "voter", "one", "B").unwrap();
    assert_eq!(counts(&store, "one"), vec![0, 1]);
    assert_eq!(counts(&store, "two"), vec![0, 1]);
    assert_eq!(ballot(&store, "voter", "two"), Some("B".to_string()));
    assert_eq!(ballot(&store, "voter", "three"), None);
    assert_eq!(ballot(&store, "one", "voter"), None);
}

#[test]
fn a_repeated_label_counts_in_its_first_slot() {
    let mut deps = mock_dependencies();
    set_up(&mut deps.storage, &deps.api, 1000);
    let mut store = Store { storage: &mut deps.storage, api: &deps.api };
    create(&mut store, "creator", vec![uatom(1000)], "poll1", &["A", "B", "A"]).unwrap();

    vote(&mut store, "v1", "poll1", "A").unwrap();
    vote(&mut store, "v2", "poll1", "A").unwrap();
    assert_eq!(counts(&store, "poll1"), vec![2, 0, 0]);
    vote(&mut store, "v1", "poll1", "B").unwrap();
    assert_eq!(counts(&store, "poll1"), vec![1, 1, 0]);
}

#[test]
fn third_party_cannot_close() {
    let mut deps = mock_dependencies();
    let admin = set_up(&mut deps.storage, &deps.api, 1000);
    let mut store = Store { storage: &mut deps.storage, api: &deps.api };
    create(&mut store, "creator", vec![uatom(1000)], "poll1", &["A", "B"]).unwrap();
    vote(&mut store, "voter", "poll1", "B").unwrap();
    let before = poll(&store, "poll1").unwrap();

    assert_eq!(close(&mut store, "voter", "poll1"), Err(ContractError::Unauthorized {}));
    let after = poll(&store, "poll1").unwrap();
    assert_eq!(after, before);
    assert!(after.is_active);
    assert_eq!(after.options, vec![("A".to_string(), 0), ("B".to_string(), 1)]);

    let res = close(&mut store, &admin, "poll1").unwrap();
    assert_eq!(res.messages, refund("creator", uatom(1000)));
    let closed = poll(&store, "poll1").unwrap();
    assert!(!closed.is_active);
    assert_eq!(closed.options, before.options);
}

#[test]
fn closing_a_missing_poll_fails() {
    let mut deps = mock_dependencies();
    set_up(&mut deps.storage, &deps.api, 1000);
    let mut store = Store { storage: &mut deps.storage, api: &deps.api };
    let res = close(&mut store, "creator", "nope");
    assert_eq!(res, Err(ContractError::PollNotFound { poll_id: "nope".to_string() }));
}

#[test]
fn refund_is_the_fee_configured_at_closure() {
    let mut deps = mock_dependencies();
    set_up(&mut deps.storage, &deps.api, 1000);
    {
        let mut store = Store { storage: &mut deps.storage, api: &deps.api };
        create(&mut store, "creator", vec![uatom(1500)], "poll1", &["A"]).unwrap();
    }
    set_up(&mut deps.storage, &deps.api, 70);
    let mut store = Store { storage: &mut deps.storage, api: &deps.api };
    let res = close(&mut store, "creator", "poll1").unwrap();
    assert_eq!(res.messages, refund("creator", uatom(70)));

    let again = close(&mut store, "creator", "poll1").unwrap();
    assert_eq!(again.messages, refund("creator", uatom(70)));
    assert!(!poll(&store, "poll1").unwrap().is_active);
}

#[test]
fn nothing_works_before_the_set_up() {
    let mut deps = mock_dependencies();
    let mut store = Store { storage: &mut deps.storage, api: &deps.api };
    let res = create(&mut store, "creator", vec![uatom(1000)], "poll1", &["A"]);
    assert!(matches!(res, Err(ContractError::Std(_))));
    assert_eq!(poll(&store, "poll1"), None);
}

#[test]
fn set_up_rejects_an_invalid_administrator() {
    let mut deps = mock_dependencies();
    let sender = deps.api.addr_make("sender").to_string();
    let mut store = Store { storage: &mut deps.storage, api: &deps.api };
    let msg = InstantiateMsg { admin: Some("not an address".to_string()) };
    let res = instantiate(&mut store, mock_env(), caller(&sender, vec![uatom(5)]), msg);
    assert!(matches!(res, Err(ContractError::Std(_))));
    let res = create(&mut store, "creator", vec![uatom(5)], "poll1", &["A"]);
    assert!(matches!(res, Err(ContractError::Std(_))));
}

#[test]
fn set_up_takes_the_first_coin_as_fee() {
    let mut deps = mock_dependencies();
    let sender = deps.api.addr_make("sender").to_string();
    let mut store = Store { storage: &mut deps.storage, api: &deps.api };
    let uosmo = Coin { denom: "uosmo".to_string(), amount: 7 };
    let funds = vec![uosmo.clone(), uatom(1000)];
    instantiate(&mut store, mock_env(), caller(&sender, funds), InstantiateMsg { admin: None })
        .unwrap();

    let res = create(&mut store, "creator", vec![uatom(1000)], "poll1", &["A"]);
    assert_eq!(res, Err(ContractError::InsufficientFunds {}));
    create(&mut store, "creator", vec![uosmo.clone()], "poll1", &["A"]).unwrap();
    let closed = close(&mut store, &sender, "poll1").unwrap();
    assert_eq!(closed.messages, refund("creator", uosmo));
}

#[test]
fn polls_are_listed_in_order_of_their_identifiers() {
    let mut deps = mock_dependencies();
    set_up(&mut deps.storage, &deps.api, 1000);
    let mut store = Store { storage: &mut deps.storage, api: &deps.api };
    for poll_id in ["b", "a", "c", "ab", "B", "\u{e9}"] {
        create(&mut store, poll_id, vec![uatom(1000)], poll_id, &["A"]).unwrap();
    }
    let listed: Vec<String> =
        get_all_polls(&store).unwrap().polls.into_iter().map(|poll| poll.creator).collect();
    assert_eq!(listed, vec!["B", "a", "ab", "b", "c", "\u{e9}"]);
}

#[test]
fn creating_again_replaces_the_poll() {
    let mut deps = mock_dependencies();
    set_up(&mut deps.storage, &deps.api, 1000);
    let mut store = Store { storage: &mut deps.storage, api: &deps.api };
    create(&mut store, "first", vec![uatom(1000)], "poll1", &["A", "B"]).unwrap();
    close(&mut store, "first", "poll1").unwrap();
    create(&mut store, "second", vec![uatom(1000)], "poll1", &["X"]).unwrap();
    assert_eq!(
        poll(&store, "poll1"),
        Some(Poll {
            creator: "second".to_string(),
            question: "Q".to_string(),
            options: vec![("X".to_string(), 0)],
            is_active: true,
        })
    );
    assert_eq!(get_all_polls(&store).unwrap().polls.len(), 1);
}

#[test]
fn a_vote_that_the_counts_cannot_take_is_not_served() {
    let mut deps = mock_dependencies();
    set_up(&mut deps.storage, &deps.api, 1000);
    let mut store = Store { storage: &mut deps.storage, api: &deps.api };

    create(&mut store, "creator", vec![uatom(1000)], "poll1", &["A", "B"]).unwrap();
    assert!(try_vote(&mut store, "voter", "poll1", "A").unwrap().is_ok());
    assert_eq!(counts(&store, "poll1"), vec![1, 0]);

    // The poll is replaced while the voter's ballot for "A" stays.
    create(&mut store, "creator", vec![uatom(1000)], "poll1", &["X", "A"]).unwrap();
    assert_eq!(try_vote(&mut store, "voter", "poll1", "X"), None);
    assert_eq!(counts(&store, "poll1"), vec![0, 0]);
    assert_eq!(ballot(&store, "voter", "poll1"), Some("A".to_string()));

    // Votes that change no count, or that are refused, are served.
    assert!(try_vote(&mut store, "voter", "poll1", "A").unwrap().is_ok());
    assert_eq!(counts(&store, "poll1"), vec![0, 0]);
    let refused = try_vote(&mut store, "voter", "poll1", "Z");
    assert_eq!(refused, Some(Err(ContractError::InvalidVote {})));
    assert!(try_vote(&mut store, "other", "poll1", "X").unwrap().is_ok());
    assert_eq!(counts(&store, "poll1"), vec![1, 0]);

    // The voter's identity must fit the key of a ballot.
    assert_eq!(try_vote(&mut store, &"v".repeat(0x10000), "poll1", "X"), None);
    assert!(try_vote(&mut store, &"v".repeat(0xFFFF), "poll1", "X").unwrap().is_ok());
    assert_eq!(counts(&store, "poll1"), vec![2, 0]);
}

#[test]
fn execute_serves_each_kind_of_call() {
    let mut deps = mock_dependencies();
    set_up(&mut deps.storage, &deps.api, 1000);
    let mut store = Store { storage: &mut deps.storage, api: &deps.api };
    let create = ExecuteMsg::CreatePoll {
        poll_id: "poll1".to_string(),
        question: "Q".to_string(),
        options: labels(&["A", "B"]),
    };
    execute(&mut store, mock_env(), caller("creator", vec![uatom(1000)]), create).unwrap();
    let vote = ExecuteMsg::Vote { poll_id: "poll1".to_string(), vote: "B".to_string() };
    execute(&mut store, mock_env(), caller("voter", vec![]), vote).unwrap();
    assert_eq!(counts(&store, "poll1"), vec![0, 1]);
    let close = ExecuteMsg::ClosePoll { poll_id: "poll1".to_string() };
    let res = execute(&mut store, mock_env(), caller("creator", vec![]), close).unwrap();
    assert_eq!(res.attributes.len(), 2);
    assert_eq!(res.attributes[0].key, "action");
    assert_eq!(res.attributes[0].value, "close_poll");
    assert_eq!(res.attributes[1].key, "poll_id");
    assert_eq!(res.attributes[1].value, "poll1");
    assert_eq!(res.messages, refund("creator", uatom(1000)));
}

#[test]
fn odd_text_survives_the_store() {
    let mut deps = mock_dependencies();
    set_up(&mut deps.storage, &deps.api, 1000);
    let mut store = Store { storage: &mut deps.storage, api: &deps.api };
    let odd = [
        "",
        " ",
        "\"quoted\"",
        "back\\slash",
        "line\nbreak\ttab\r",
        "\u{0}\u{1}\u{1f}\u{7f}",
        "\u{e9}\u{4e2d}\u{6587}\u{1f600}",
        "{\"a\":[1,2]}",
        "a, b",
    ];
    let poll_id = "id \"with\" \\ odd \u{1f600} text\n";
    let creator = "creator \"c\"";
    let voter = "voter\n\"v\"\u{1f600}";
    create(&mut store, creator, vec![uatom(1000)], poll_id, &odd).unwrap();
    for label in odd {
        vote(&mut store, voter, poll_id, label).unwrap();
        assert_eq!(ballot(&store, voter, poll_id), Some(label.to_string()));
    }
    let mut options: Vec<(String, u64)> = odd.iter().map(|label| (label.to_string(), 0)).collect();
    options[8].1 = 1;
    let expected = Poll {
        creator: creator.to_string(),
        question: "Q".to_string(),
        options,
        is_active: true,
    };
    assert_eq!(poll(&store, poll_id), Some(expected.clone()));
    assert_eq!(get_all_polls(&store).unwrap().polls, vec![expected]);
}

#[test]
fn large_fee_survives_the_store() {
    let mut deps = mock_dependencies();
    set_up(&mut deps.storage, &deps.api, u128::MAX);
    let mut store = Store { storage: &mut deps.storage, api: &deps.api };
    let short = create(&mut store, "creator", vec![uatom(u128::MAX - 1)], "poll1", &["A"]);
    assert_eq!(short, Err(ContractError::InsufficientFunds {}));
    create(&mut store, "creator", vec![uatom(u128::MAX)], "poll1", &["A"]).unwrap();
    let closed = close(&mut store, "creator", "poll1").unwrap();
    assert_eq!(closed.messages, refund("creator", uatom(u128::MAX)));
}

#[test]
fn full_slot_takes_no_further_vote() {
    let mut deps = mock_dependencies();
    set_up(&mut deps.storage, &deps.api, 1000);
    let record: Record = (
        "creator".to_string(),
        "Q".to_string(),
        vec![("A".to_string(), u64::MAX), ("B".to_string(), 0)],
        true,
    );
    cw_storage_plus::Map::<&str, Record>::new("polls")
        .save(&mut deps.storage, "big", &record)
        .unwrap();
    let mut store = Store { storage: &mut deps.storage, api: &deps.api };
    assert_eq!(counts(&store, "big"), vec![u64::MAX, 0]);

    assert_eq!(try_vote(&mut store, "voter", "big", "A"), None);
    assert_eq!(counts(&store, "big"), vec![u64::MAX, 0]);
    assert_eq!(ballot(&store, "voter", "big"), None);

    assert!(try_vote(&mut store, "voter", "big", "B").unwrap().is_ok());
    assert_eq!(counts(&store, "big"), vec![u64::MAX, 1]);
    assert_eq!(try_vote(&mut store, "voter", "big", "A"), None);
    assert_eq!(counts(&store, "big"), vec![u64::MAX, 1]);
    assert_eq!(ballot(&store, "voter", "big"), Some("B".to_string()));
}

#[test]
fn entry_that_does_not_decode_is_a_fault() {
    let mut deps = mock_dependencies();
    set_up(&mut deps.storage, &deps.api, 1000);
    cw_storage_plus::Map::<&str, String>::new("polls")
        .save(&mut deps.storage, "bad", &"no poll".to_string())
        .unwrap();
    let mut store = Store { storage: &mut deps.storage, api: &deps.api };

    assert!(get_poll(&store, "bad".to_string()).is_err());
    assert!(get_all_polls(&store).is_err());
    assert!(matches!(vote(&mut store, "voter", "bad", "A"), Err(ContractError::Std(_))));
    assert!(matches!(close(&mut store, "creator", "bad"), Err(ContractError::Std(_))));
    assert_eq!(poll(&store, "good"), None);

    // A new poll takes the place of the entry.
    create(&mut store, "creator", vec![uatom(1000)], "bad", &["A"]).unwrap();
    assert_eq!(counts(&store, "bad"), vec![0]);
    assert_eq!(get_all_polls(&store).unwrap().polls.len(), 1);
}

#[test]
fn ballot_that_does_not_decode_counts_as_none() {
    let mut deps = mock_dependencies();
    set_up(&mut deps.storage, &deps.api, 1000);
    cw_storage_plus::Map::<(&str, &str), u64>::new("ballots")
        .save(&mut deps.storage, ("voter", "poll1"), &7)
        .unwrap();
    let mut store = Store { storage: &mut deps.storage, api: &deps.api };
    create(&mut store, "creator", vec![uatom(1000)], "poll1", &["A"]).unwrap();

    assert_eq!(ballot(&store, "voter", "poll1"), None);
    assert!(matches!(vote(&mut store, "voter", "poll1", "A"), Err(ContractError::Std(_))));
    assert_eq!(counts(&store, "poll1"), vec![0]);
    assert_eq!(get_all_polls(&store).unwrap().polls.len(), 1);
}

#[test]
fn listing_fails_on_a_key_that_is_no_text() {
    let mut deps = mock_dependencies();
    set_up(&mut deps.storage, &deps.api, 1000);
    {
        let mut store = Store { storage: &mut deps.storage, api: &deps.api };
        create(&mut store, "creator", vec![uatom(1000)], "poll1", &["A"]).unwrap();
        assert_eq!(get_all_polls(&store).unwrap().polls.len(), 1);
    }
    let value = deps.storage.get(b"\x00\x05pollspoll1").unwrap();
    deps.storage.set(b"\x00\x05polls\xff", &value);
    let mut store = Store { storage: &mut deps.storage, api: &deps.api };
    assert!(get_all_polls(&store).is_err());
    assert_eq!(counts(&store, "poll1"), vec![0]);

    // What is called leaves the entry where it is.
    vote(&mut store, "voter", "poll1", "A").unwrap();
    close(&mut store, "creator", "poll1").unwrap();
    create(&mut store, "creator", vec![uatom(1000)], "poll2", &["A"]).unwrap();
    assert!(get_all_polls(&store).is_err());
}

#[test]
fn listing_succeeds_after_every_call() {
    let mut deps = mock_dependencies();
    {
        let store = Store { storage: &mut deps.storage, api: &deps.api };
        assert_eq!(get_all_polls(&store).unwrap().polls.len(), 0);
    }
    let admin = set_up(&mut deps.storage, &deps.api, 1000);
    let mut store = Store { storage: &mut deps.storage, api: &deps.api };
    assert_eq!(get_all_polls(&store).unwrap().polls.len(), 0);
    create(&mut store, "creator", vec![uatom(1000)], "poll1", &["A", "B"]).unwrap();
    assert_eq!(get_all_polls(&store).unwrap().polls.len(), 1);
    assert!(create(&mut store, "creator", vec![], "poll2", &["A"]).is_err());
    assert_eq!(get_all_polls(&store).unwrap().polls.len(), 1);
    vote(&mut store, "voter", "poll1", "B").unwrap();
    assert!(vote(&mut store, "voter", "poll1", "C").is_err());
    assert_eq!(get_all_polls(&store).unwrap().polls, vec![poll(&store, "poll1").unwrap()]);
    assert!(close(&mut store, "voter", "poll1").is_err());
    close(&mut store, &admin, "poll1").unwrap();
    create(&mut store, "creator", vec![uatom(1000)], "poll0", &[]).unwrap();
    let listed = get_all_polls(&store).unwrap().polls;
    assert_eq!(listed, vec![poll(&store, "poll0").unwrap(), poll(&store, "poll1").unwrap()]);
    assert_eq!(listed[1].options, vec![("A".to_string(), 0), ("B".to_string(), 1)]);
    assert!(!listed[1].is_active);
}

#[test]
fn records_lie_under_their_own_keys() {
    let mut deps = mock_dependencies();
    let admin = set_up(&mut deps.storage, &deps.api, 1000);
    {
        let mut store = Store { storage: &mut deps.storage, api: &deps.api };
        create(&mut store, "creator", vec![uatom(1000)], "poll1", &["A"]).unwrap();
        vote(&mut store, "voter", "poll1", "A").unwrap();
    }
    let config = cw_storage_plus::Item::<(String, cosmwasm_std::Coin)>::new("config")
        .load(&deps.storage)
        .unwrap();
    assert_eq!(config, (admin, cosmwasm_std::Coin::new(1000u128, "uatom")));
    let poll =
        cw_storage_plus::Map::<&str, Record>::new("polls").load(&deps.storage, "poll1").unwrap();
    assert_eq!(
        poll,
        ("creator".to_string(), "Q".to_string(), vec![("A".to_string(), 1u64)], true)
    );
    let ballot = cw_storage_plus::Map::<(&str, &str), String>::new("ballots")
        .load(&deps.storage, ("voter", "poll1"))
        .unwrap();
    assert_eq!(ballot, "A");
    let version = cw2::get_contract_version(&deps.storage).unwrap();
    assert_eq!(version.contract, "crates.io:cw_contract");
    assert_eq!(version.version, "0.1.0");
}

#[test]
fn administrator_is_the_one_named_else_the_caller() {
    assert_eq!(chosen_admin("caller".to_string(), Some("named".to_string())), "named");
    assert_eq!(chosen_admin("caller".to_string(), None), "caller");
    assert_eq!(chosen_admin("caller".to_string(), Some("".to_string())), "");
}

#[test]
fn rejected_administrator_ends_the_set_up() {
    let mut deps = mock_dependencies();
    set_up(&mut deps.storage, &deps.api, 1000);
    let mut store = Store { storage: &mut deps.storage, api: &deps.api };
    create(&mut store, "creator", vec![uatom(1000)], "poll1", &["A"]).unwrap();

    let fault = || StdError::generic_err("no such identity");
    let res = configure(&mut store, Err(fault()), uatom(5));
    assert_eq!(res, Err(ContractError::Std(fault())));

    // The fee and the administrator are as they were.
    let short = create(&mut store, "creator", vec![uatom(999)], "poll2", &["A"]);
    assert_eq!(short, Err(ContractError::InsufficientFunds {}));
    assert_eq!(close(&mut store, "anybody", "poll1"), Err(ContractError::Unauthorized {}));
}

#[test]
fn accepted_administrator_is_configured() {
    let mut deps = mock_dependencies();
    let mut store = Store { storage: &mut deps.storage, api: &deps.api };
    let res = configure(&mut store, Ok("anybody".to_string()), uatom(5)).unwrap();
    assert_eq!(res.messages, vec![]);
    assert_eq!(res.attributes.len(), 2);
    assert_eq!(res.attributes[0].key, "method");
    assert_eq!(res.attributes[0].value, "instantiate");
    assert_eq!(res.attributes[1].key, "admin");
    assert_eq!(res.attributes[1].value, "anybody");

    create(&mut store, "creator", vec![uatom(5)], "poll1", &["A"]).unwrap();
    let closed = close(&mut store, "anybody", "poll1").unwrap();
    assert_eq!(closed.messages, refund("creator", uatom(5)));
}

#[test]
fn look_up_comes_to_the_poll_or_to_an_error() {
    let poll = Poll {
        creator: "creator".to_string(),
        question: "Q".to_string(),
        options: vec![("A".to_string(), 2)],
        is_active: false,
    };
    assert_eq!(found_poll(Ok(Some(poll.clone())), "poll1".to_string()), Ok(poll));
    assert_eq!(
        found_poll(Ok(None), "poll1".to_string()),
        Err(ContractError::PollNotFound { poll_id: "poll1".to_string() })
    );
    let fault = || StdError::generic_err("broken");
    assert_eq!(found_poll(Err(fault()), "poll1".to_string()), Err(ContractError::Std(fault())));
}

#[test]
fn first_vote_and_closure_succeed_on_a_sound_store() {
    let mut deps = mock_dependencies();
    let admin = set_up(&mut deps.storage, &deps.api, 1000);
    let mut store = Store { storage: &mut deps.storage, api: &deps.api };
    for poll_id in ["one", "two", "three"] {
        assert!(create(&mut store, poll_id, vec![uatom(1000)], poll_id, &["A", "B"]).is_ok());
        for voter in ["v1", "v2", "v3"] {
            assert!(vote(&mut store, voter, poll_id, "A").is_ok());
            assert!(vote(&mut store, voter, poll_id, "B").is_ok());
            assert!(vote(&mut store, voter, poll_id, "B").is_ok());
        }
        assert_eq!(counts(&store, poll_id), vec![0, 3]);
    }
    assert!(close(&mut store, "one", "one").is_ok());
    assert!(close(&mut store, &admin, "two").is_ok());
    assert!(close(&mut store, &admin, "two").is_ok());
    assert_eq!(close(&mut store, "one", "three"), Err(ContractError::Unauthorized {}));
}
