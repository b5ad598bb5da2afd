//! The request surface of the converter, abstracted from the wire format:
//! the five operations, the ledger-originated receive callback, and the two
//! read-only queries.

use vstd::prelude::*;

verus! {

/// Creates the converter with its first administrator.
#[derive(Clone, Debug, PartialEq, Eq)]
pub struct InstantiateMsg {
    pub owner: String,
}

/// The recognized payloads of the token ledger's receive callback.
#[derive(Clone, Copy, Debug, PartialEq, Eq, Structural)]
pub enum Cw20HookMsg {
    /// Burn the transferred bridged amount and return native coin.
    ConvertBassetToNative,
}

/// An inbound transfer-with-payload from the token ledger: the original
/// sender, the transferred amount, and the decoded payload.  `None` stands
/// for a payload that does not decode to a recognized request.
#[derive(Clone, Debug, PartialEq, Eq)]
pub struct Cw20ReceiveMsg {
    pub sender: String,
    pub amount: u128,
    pub msg: Option<Cw20HookMsg>,
}

/// Spec-level image of `Cw20ReceiveMsg`.
#[verifier::ext_equal]
pub struct Cw20ReceiveMsgView {
    pub sender: Seq<char>,
    pub amount: u128,
    pub msg: Option<Cw20HookMsg>,
}

impl View for Cw20ReceiveMsg {
    type V = Cw20ReceiveMsgView;

    open spec fn view(&self) -> Cw20ReceiveMsgView {
        Cw20ReceiveMsgView { sender: self.sender@, amount: self.amount, msg: self.msg }
    }
}

/// The operations of the converter.
#[derive(Clone, Debug, PartialEq, Eq)]
pub enum ExecuteMsg {
    /// The token ledger's receive hook; the only path into a
    /// basset-to-native conversion.
    Receive(Cw20ReceiveMsg),
    /// One-time binding of the converter to its two assets; each field is
    /// write-once.
    RegisterTokens { basset_token_address: String, native_denom: String, denom_decimals: u8 },
    /// Deposit the attached native funds and receive bridged tokens.
    ConvertNativeToBasset,
    /// Nominate the next administrator (owner only).
    SetOwner { new_owner_addr: String },
    /// Complete the handover (nominated identity only).
    AcceptOwnership,
}

/// The read-only queries.
#[derive(Clone, Copy, Debug, PartialEq, Eq, Structural)]
pub enum QueryMsg {
    Config,
    NewOwner,
}

/// Answer to `QueryMsg::Config`.
#[derive(Clone, Debug, PartialEq, Eq)]
pub struct ConfigResponse {
    pub owner: String,
    pub basset_token_address: Option<String>,
    pub native_denom: Option<String>,
}

/// Answer to `QueryMsg::NewOwner`.
#[derive(Clone, Debug, PartialEq, Eq)]
pub struct NewOwnerResponse {
    pub new_owner: String,
}

/// Answer to either query.
#[derive(Clone, Debug, PartialEq, Eq)]
pub enum QueryAnswer {
    Config(ConfigResponse),
    NewOwner(NewOwnerResponse),
}

/// Changes the registered minter of the bridged token ledger; handled by the
/// ledger component, outside this converter's own state.
#[derive(Clone, Debug, PartialEq, Eq)]
pub struct MigrateMsg {
    pub minter: String,
}

/// The creation request used as a fixture by the test suite.
pub fn default_init() -> (m: InstantiateMsg)
    ensures
        m.owner@ == "owner0000"@,
{
    InstantiateMsg { owner: "owner0000".to_owned() }
}

} // verus!
