//! The outcome of an accepted operation: the ordered outbound instructions
//! that the host environment executes transactionally, plus descriptive
//! metadata attributes.

use vstd::prelude::*;

verus! {

/// A quantity of a native coin: a denomination and an integer amount.
#[derive(Clone, Debug, PartialEq, Eq)]
pub struct Coin {
    pub denom: String,
    pub amount: u128,
}

/// Spec-level image of `Coin`.
#[verifier::ext_equal]
pub struct CoinView {
    pub denom: Seq<char>,
    pub amount: u128,
}

impl View for Coin {
    type V = CoinView;

    open spec fn view(&self) -> CoinView {
        CoinView { denom: self.denom@, amount: self.amount }
    }
}

/// An outbound instruction queued for the host environment.
#[derive(Clone, Debug, PartialEq, Eq)]
pub enum OutMsg {
    /// Instruct the token ledger at `contract_addr` to mint `amount` units
    /// of the bridged asset to `recipient`.
    MintBasset { contract_addr: String, recipient: String, amount: u128 },
    /// Transfer `coin` to `to_address` through the native bank.
    BankSend { to_address: String, coin: Coin },
    /// Instruct the token ledger at `contract_addr` to burn `amount` units
    /// of the bridged asset.
    BurnBasset { contract_addr: String, amount: u128 },
}

/// Spec-level image of `OutMsg`.
#[verifier::ext_equal]
pub enum OutMsgView {
    MintBasset { contract_addr: Seq<char>, recipient: Seq<char>, amount: u128 },
    BankSend { to_address: Seq<char>, coin: CoinView },
    BurnBasset { contract_addr: Seq<char>, amount: u128 },
}

impl View for OutMsg {
    type V = OutMsgView;

    open spec fn view(&self) -> OutMsgView {
        match self {
            OutMsg::MintBasset { contract_addr, recipient, amount } => OutMsgView::MintBasset {
                contract_addr: contract_addr@,
                recipient: recipient@,
                amount: *amount,
            },
            OutMsg::BankSend { to_address, coin } => OutMsgView::BankSend {
                to_address: to_address@,
                coin: coin@,
            },
            OutMsg::BurnBasset { contract_addr, amount } => OutMsgView::BurnBasset {
                contract_addr: contract_addr@,
                amount: *amount,
            },
        }
    }
}

/// A key/value pair of descriptive metadata.
#[derive(Clone, Debug, PartialEq, Eq)]
pub struct Attribute {
    pub key: String,
    pub value: String,
}

/// Spec-level image of `Attribute`.
#[verifier::ext_equal]
pub struct AttributeView {
    pub key: Seq<char>,
    pub value: Seq<char>,
}

impl View for Attribute {
    type V = AttributeView;

    open spec fn view(&self) -> AttributeView {
        AttributeView { key: self.key@, value: self.value@ }
    }
}

/// What an accepted operation hands back to the host: the outbound
/// instructions, in order, and the metadata attributes.  Either every
/// instruction is executed together with the state mutation, or none is.
#[derive(Clone, Debug, PartialEq, Eq)]
pub struct Response {
    pub messages: Vec<OutMsg>,
    pub attributes: Vec<Attribute>,
}

/// Spec-level image of `Response`.
#[verifier::ext_equal]
pub struct ResponseView {
    pub messages: Seq<OutMsgView>,
    pub attributes: Seq<AttributeView>,
}

impl View for Response {
    type V = ResponseView;

    open spec fn view(&self) -> ResponseView {
        ResponseView {
            messages: self.messages@.map_values(|m: OutMsg| m@),
            attributes: self.attributes@.map_values(|a: Attribute| a@),
        }
    }
}

/// The spec-level image of a list of coins.
pub open spec fn coins_view(coins: Seq<Coin>) -> Seq<CoinView> {
    coins.map_values(|c: Coin| c@)
}

/// A response that carries no instructions and no metadata.
pub open spec fn resp_empty(rv: ResponseView) -> bool {
    rv.messages.len() == 0 && rv.attributes.len() == 0
}

impl Response {
    /// A response with no instructions and no metadata.
    pub fn empty() -> (r: Response)
        ensures
            r@.messages =~= Seq::<OutMsgView>::empty(),
            r@.attributes =~= Seq::<AttributeView>::empty(),
    {
        let r = Response { messages: Vec::new(), attributes: Vec::new() };
        proof {
            assert(r@.messages =~= Seq::<OutMsgView>::empty());
            assert(r@.attributes =~= Seq::<AttributeView>::empty());
        }
        r
    }
}

} // verus!
