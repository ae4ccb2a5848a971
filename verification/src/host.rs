//! What the host hands to a call and what it takes back.
use crate::state::{coins_view, Coin, CoinView};
use vstd::prelude::*;

verus! {

/// `cosmwasm_std::Env`, the block and contract that a call runs in. No
/// operation reads it.
#[verifier::external_type_specification]
#[verifier::external_body]
pub struct ExEnv(cosmwasm_std::Env);

/// Who calls, and the payment that comes with the call.
#[derive(Clone, Debug, PartialEq, Eq)]
pub struct MessageInfo {
    pub sender: String,
    pub funds: Vec<Coin>,
}

/// A key and a value that the host records with a successful call.
#[derive(Clone, Debug, PartialEq, Eq)]
pub struct Attribute {
    pub key: String,
    pub value: String,
}

/// A payment that the host makes on the ledger's behalf.
#[derive(Clone, Debug, PartialEq, Eq)]
pub enum BankMsg {
    Send { to_address: String, amount: Vec<Coin> },
}

/// What a [`BankMsg`] is: the receiver and the coins.
pub struct TransferView {
    pub to_address: Seq<char>,
    pub amount: Seq<CoinView>,
}

impl View for BankMsg {
    type V = TransferView;

    open spec fn view(&self) -> TransferView {
        match *self {
            BankMsg::Send { to_address, amount } => TransferView {
                to_address: to_address@,
                amount: coins_view(amount@),
            },
        }
    }
}

/// The outcome of a successful call: payments to make and attributes to
/// record, each in the order in which they were added.
#[derive(Clone, Debug, PartialEq, Eq)]
pub struct Response {
    pub messages: Vec<BankMsg>,
    pub attributes: Vec<Attribute>,
}

/// What a [`Response`] is.
pub struct ResponseView {
    pub messages: Seq<TransferView>,
    pub attributes: Seq<(Seq<char>, Seq<char>)>,
}

impl View for Response {
    type V = ResponseView;

    open spec fn view(&self) -> ResponseView {
        ResponseView {
            messages: Seq::new(self.messages@.len(), |i: int| self.messages@[i]@),
            attributes: Seq::new(
                self.attributes@.len(),
                |i: int| (self.attributes@[i].key@, self.attributes@[i].value@),
            ),
        }
    }
}

impl Response {
    /// A response with no payment and no attribute.
    pub fn new() -> (r: Response)
        ensures
            r@ == (ResponseView { messages: Seq::empty(), attributes: Seq::empty() }),
    {
        let r = Response { messages: Vec::new(), attributes: Vec::new() };
        proof {
            assert(r@.messages =~= Seq::empty());
            assert(r@.attributes =~= Seq::empty());
        }
        r
    }

    /// The response with one more attribute at the end.
    pub fn add_attribute(self, key: &str, value: String) -> (r: Response)
        ensures
            r@ == (ResponseView { attributes: self@.attributes.push((key@, value@)), ..self@ }),
    {
        let mut r = self;
        r.attributes.push(Attribute { key: key.to_owned(), value });
        proof {
            assert(r@.attributes =~= self@.attributes.push((key@, value@)));
            assert(r@.messages =~= self@.messages);
        }
        r
    }

    /// The response with one more payment at the end.
    pub fn add_message(self, msg: BankMsg) -> (r: Response)
        ensures
            r@ == (ResponseView { messages: self@.messages.push(msg@), ..self@ }),
    {
        let mut r = self;
        r.messages.push(msg);
        proof {
            assert(r@.messages =~= self@.messages.push(msg@));
            assert(r@.attributes =~= self@.attributes);
        }
        r
    }
}

} // verus!
