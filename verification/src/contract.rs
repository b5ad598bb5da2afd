//! The converter's operations: initialization, the write-once registration,
//! the two-step ownership handover, the two conversion orchestrations and
//! the read-only queries.
//!
//! Each operation takes the persisted state explicitly, by reference; an
//! operation that fails leaves it untouched.  The host environment performs
//! the ledger's decimal-precision query and hands its answer in as a plain
//! argument, and executes the returned instructions transactionally.

use crate::math::{
    convert_to_basset_decimals, convert_to_denom_decimals, spec_rescale, spec_to_basset,
    ConverterError,
};
use crate::msg::{
    ConfigResponse, Cw20HookMsg, Cw20ReceiveMsg, Cw20ReceiveMsgView, ExecuteMsg, InstantiateMsg,
    NewOwnerResponse, QueryAnswer, QueryMsg,
};
use crate::numfmt::{spec_dec_digits, u128_to_dec_string};
use crate::response::{
    coins_view, resp_empty, Attribute, AttributeView, Coin, CoinView, OutMsg, OutMsgView,
    Response, ResponseView,
};
use crate::state::{Config, ConfigView, NewOwnerAddr};
use vstd::prelude::*;

verus! {

/// What registration does to the registry: only the owner may call, and each
/// field is stored only if still unset — a repeated registration succeeds
/// without overwriting anything.
pub open spec fn spec_register(
    cfg: ConfigView,
    sender: Seq<char>,
    basset_token_address: Seq<char>,
    native_denom: Seq<char>,
    denom_decimals: u8,
) -> Result<ConfigView, ConverterError> {
    if sender != cfg.owner {
        Err(ConverterError::Unauthorized)
    } else {
        Ok(
            ConfigView {
                owner: cfg.owner,
                basset_token_address: if cfg.basset_token_address is Some {
                    cfg.basset_token_address
                } else {
                    Some(basset_token_address)
                },
                native_denom: if cfg.native_denom is Some {
                    cfg.native_denom
                } else {
                    Some(native_denom)
                },
                denom_decimals: if cfg.denom_decimals is Some {
                    cfg.denom_decimals
                } else {
                    Some(denom_decimals)
                },
            },
        )
    }
}

/// What proposing a new owner does to the pending-owner record: only the
/// owner may call, and the nomination is overwritten unconditionally.
pub open spec fn spec_set_new_owner(
    cfg: ConfigView,
    pending: Seq<char>,
    sender: Seq<char>,
    candidate: Seq<char>,
) -> Result<Seq<char>, ConverterError> {
    if sender != cfg.owner {
        Err(ConverterError::Unauthorized)
    } else {
        Ok(candidate)
    }
}

/// What accepting ownership does to the registry: only the nominated
/// identity may call, and it becomes the owner.
pub open spec fn spec_accept_ownership(
    cfg: ConfigView,
    pending: Seq<char>,
    sender: Seq<char>,
) -> Result<ConfigView, ConverterError> {
    if sender != pending {
        Err(ConverterError::Unauthorized)
    } else {
        Ok(ConfigView { owner: pending, ..cfg })
    }
}

/// Relates a registration call's result to the registry before and after.
pub open spec fn register_post(
    pre: ConfigView,
    post: ConfigView,
    sender: Seq<char>,
    basset_token_address: Seq<char>,
    native_denom: Seq<char>,
    denom_decimals: u8,
    r: Result<Response, ConverterError>,
) -> bool {
    match r {
        Ok(resp) => spec_register(pre, sender, basset_token_address, native_denom, denom_decimals)
            == Ok::<ConfigView, ConverterError>(post) && resp@.messages.len() == 0
            && resp@.attributes == seq![
            AttributeView { key: "action"@, value: "register_token_contracts"@ },
        ],
        Err(e) => spec_register(pre, sender, basset_token_address, native_denom, denom_decimals)
            == Err::<ConfigView, ConverterError>(e) && post == pre,
    }
}

/// Relates a nomination call's result to the pending owner before and after.
pub open spec fn set_new_owner_post(
    cfg: ConfigView,
    pre: Seq<char>,
    post: Seq<char>,
    sender: Seq<char>,
    candidate: Seq<char>,
    r: Result<Response, ConverterError>,
) -> bool {
    match r {
        Ok(resp) => spec_set_new_owner(cfg, pre, sender, candidate) == Ok::<
            Seq<char>,
            ConverterError,
        >(post) && resp_empty(resp@),
        Err(e) => spec_set_new_owner(cfg, pre, sender, candidate) == Err::<
            Seq<char>,
            ConverterError,
        >(e) && post == pre,
    }
}

/// Relates an acceptance call's result to the registry before and after.
pub open spec fn accept_ownership_post(
    pre: ConfigView,
    post: ConfigView,
    pending: Seq<char>,
    sender: Seq<char>,
    r: Result<Response, ConverterError>,
) -> bool {
    match r {
        Ok(resp) => spec_accept_ownership(pre, pending, sender) == Ok::<
            ConfigView,
            ConverterError,
        >(post) && resp_empty(resp@),
        Err(e) => spec_accept_ownership(pre, pending, sender) == Err::<
            ConfigView,
            ConverterError,
        >(e) && post == pre,
    }
}

/// What a native deposit yields: with a complete registration and exactly
/// one attached coin of the registered denomination and positive amount,
/// one mint instruction for the rescaled amount, else the matching error.
pub open spec fn spec_convert_to_basset(
    cfg: ConfigView,
    sender: Seq<char>,
    funds: Seq<CoinView>,
    basset_decimals: u8,
) -> Result<ResponseView, ConverterError> {
    if !cfg.is_registered() {
        Err(ConverterError::ConfigIncomplete)
    } else if funds.len() != 1 || funds[0].denom != cfg.native_denom->Some_0 || funds[0].amount
        == 0 {
        Err(ConverterError::InvalidFunds)
    } else {
        match spec_to_basset(funds[0].amount, basset_decimals, cfg.denom_decimals->Some_0) {
            Ok(mint_amount) => Ok(
                ResponseView {
                    messages: seq![
                        OutMsgView::MintBasset {
                            contract_addr: cfg.basset_token_address->Some_0,
                            recipient: sender,
                            amount: mint_amount,
                        },
                    ],
                    attributes: seq![
                        AttributeView { key: "action"@, value: "convert-to-basset"@ },
                        AttributeView { key: "recipient"@, value: sender },
                        AttributeView {
                            key: "minted_amount"@,
                            value: spec_dec_digits(mint_amount as nat),
                        },
                    ],
                },
            ),
            Err(e) => Err(e),
        }
    }
}

/// What a basset burn yields: with a complete registration, a bank transfer
/// of the rescaled amount to the original sender followed by a burn of the
/// transferred amount, else the matching error.
pub open spec fn spec_convert_to_native(
    cfg: ConfigView,
    amount: u128,
    sender: Seq<char>,
    basset_decimals: u8,
) -> Result<ResponseView, ConverterError> {
    if !cfg.is_registered() {
        Err(ConverterError::ConfigIncomplete)
    } else {
        match spec_rescale(amount, basset_decimals, cfg.denom_decimals->Some_0) {
            Ok(return_amount) => Ok(
                ResponseView {
                    messages: seq![
                        OutMsgView::BankSend {
                            to_address: sender,
                            coin: CoinView {
                                denom: cfg.native_denom->Some_0,
                                amount: return_amount,
                            },
                        },
                        OutMsgView::BurnBasset {
                            contract_addr: cfg.basset_token_address->Some_0,
                            amount: amount,
                        },
                    ],
                    attributes: seq![
                        AttributeView { key: "action"@, value: "convert-to-native"@ },
                        AttributeView { key: "recipient"@, value: sender },
                        AttributeView {
                            key: "return_amount"@,
                            value: spec_dec_digits(return_amount as nat),
                        },
                        AttributeView {
                            key: "burn_amount"@,
                            value: spec_dec_digits(amount as nat),
                        },
                    ],
                },
            ),
            Err(e) => Err(e),
        }
    }
}

/// What the ledger's receive hook yields: an unrecognized payload is
/// malformed; the callback must originate from the registered ledger; then
/// the basset-to-native conversion runs.
pub open spec fn spec_receive(
    cfg: ConfigView,
    token_contract: Seq<char>,
    rmsg: Cw20ReceiveMsgView,
    basset_decimals: u8,
) -> Result<ResponseView, ConverterError> {
    match rmsg.msg {
        None => Err(ConverterError::MalformedPayload),
        Some(Cw20HookMsg::ConvertBassetToNative) => {
            if cfg.basset_token_address is None {
                Err(ConverterError::ConfigIncomplete)
            } else if token_contract != cfg.basset_token_address->Some_0 {
                Err(ConverterError::Unauthorized)
            } else {
                spec_convert_to_native(cfg, rmsg.amount, rmsg.sender, basset_decimals)
            }
        },
    }
}

/// Creates the registry and the pending-owner record.  All registration
/// fields start unset; the pending owner starts as the creator itself, a
/// self-nomination with no effect until a real proposal is made.
pub fn instantiate(msg: InstantiateMsg) -> (r: (Config, NewOwnerAddr, Response))
    ensures
        r.0@ == (ConfigView {
            owner: msg.owner@,
            basset_token_address: None,
            native_denom: None,
            denom_decimals: None,
        }),
        r.1@ == msg.owner@,
        resp_empty(r.2@),
{
    let config = Config {
        owner: msg.owner.clone(),
        basset_token_address: None,
        native_denom: None,
        denom_decimals: None,
    };
    let new_owner = NewOwnerAddr { new_owner_addr: msg.owner };
    (config, new_owner, Response::empty())
}

/// Binds the converter to its assets, each field write-once, per
/// `spec_register`.
pub fn register_tokens(
    config: &mut Config,
    sender: &String,
    basset_token_address: String,
    native_denom: String,
    denom_decimals: u8,
) -> (r: Result<Response, ConverterError>)
    ensures
        register_post(
            old(config)@,
            final(config)@,
            sender@,
            basset_token_address@,
            native_denom@,
            denom_decimals,
            r,
        ),
{
    if !(*sender == config.owner) {
        return Err(ConverterError::Unauthorized);
    }
    if config.basset_token_address.is_none() {
        config.basset_token_address = Some(basset_token_address);
    }
    if config.native_denom.is_none() {
        config.native_denom = Some(native_denom);
    }
    if config.denom_decimals.is_none() {
        config.denom_decimals = Some(denom_decimals);
    }
    let mut attributes: Vec<Attribute> = Vec::new();
    attributes.push(
        Attribute { key: "action".to_owned(), value: "register_token_contracts".to_owned() },
    );
    let resp = Response { messages: Vec::new(), attributes };
    proof {
        assert(resp@.attributes =~= seq![
            AttributeView { key: "action"@, value: "register_token_contracts"@ },
        ]);
    }
    Ok(resp)
}

/// Nominates the next administrator, per `spec_set_new_owner`.
pub fn set_new_owner(
    config: &Config,
    new_owner: &mut NewOwnerAddr,
    sender: &String,
    new_owner_addr: String,
) -> (r: Result<Response, ConverterError>)
    ensures
        set_new_owner_post(config@, old(new_owner)@, final(new_owner)@, sender@, new_owner_addr@, r),
{
    if !(*sender == config.owner) {
        return Err(ConverterError::Unauthorized);
    }
    new_owner.new_owner_addr = new_owner_addr;
    Ok(Response::empty())
}

/// Completes the handover, per `spec_accept_ownership`.
pub fn accept_ownership(config: &mut Config, new_owner: &NewOwnerAddr, sender: &String) -> (r:
    Result<Response, ConverterError>)
    ensures
        accept_ownership_post(old(config)@, final(config)@, new_owner@, sender@, r),
{
    if !(*sender == new_owner.new_owner_addr) {
        return Err(ConverterError::Unauthorized);
    }
    config.owner = new_owner.new_owner_addr.clone();
    Ok(Response::empty())
}

/// Reads the registry.
pub fn query_config(config: &Config) -> (r: ConfigResponse)
    ensures
        r.owner@ == config@.owner,
        r.basset_token_address.deep_view() == config@.basset_token_address,
        r.native_denom.deep_view() == config@.native_denom,
{
    ConfigResponse {
        owner: config.owner.clone(),
        basset_token_address: match &config.basset_token_address {
            Some(a) => Some(a.clone()),
            None => None,
        },
        native_denom: match &config.native_denom {
            Some(d) => Some(d.clone()),
            None => None,
        },
    }
}

/// Reads the pending-owner record.
pub fn query_new_owner(new_owner: &NewOwnerAddr) -> (r: NewOwnerResponse)
    ensures
        r.new_owner@ == new_owner@,
{
    NewOwnerResponse { new_owner: new_owner.new_owner_addr.clone() }
}

/// Answers either read-only query.
pub fn query(config: &Config, new_owner: &NewOwnerAddr, msg: QueryMsg) -> (r: QueryAnswer)
    ensures
        match msg {
            QueryMsg::Config => r matches QueryAnswer::Config(c) && c.owner@ == config@.owner
                && c.basset_token_address.deep_view() == config@.basset_token_address
                && c.native_denom.deep_view() == config@.native_denom,
            QueryMsg::NewOwner => r matches QueryAnswer::NewOwner(n) && n.new_owner@
                == new_owner@,
        },
{
    match msg {
        QueryMsg::Config => QueryAnswer::Config(query_config(config)),
        QueryMsg::NewOwner => QueryAnswer::NewOwner(query_new_owner(new_owner)),
    }
}

/// The migration entry: it changes nothing and emits nothing.
pub fn migrate() -> (r: Response)
    ensures
        resp_empty(r@),
{
    Response::empty()
}

/// Deposits native funds and instructs the ledger to mint the rescaled
/// amount of the bridged asset to the sender, per `spec_convert_to_basset`.
/// `basset_decimals` is the ledger's answer to the decimal-precision query.
pub fn execute_convert_to_basset(
    config: &Config,
    sender: String,
    funds: &Vec<Coin>,
    basset_decimals: u8,
) -> (r: Result<Response, ConverterError>)
    ensures
        match r {
            Ok(resp) => spec_convert_to_basset(config@, sender@, coins_view(funds@), basset_decimals)
                == Ok::<ResponseView, ConverterError>(resp@),
            Err(e) => spec_convert_to_basset(config@, sender@, coins_view(funds@), basset_decimals)
                == Err::<ResponseView, ConverterError>(e),
        },
{
    let basset_addr = match &config.basset_token_address {
        Some(a) => a.clone(),
        None => {
            return Err(ConverterError::ConfigIncomplete);
        },
    };
    let native_denom = match &config.native_denom {
        Some(d) => d.clone(),
        None => {
            return Err(ConverterError::ConfigIncomplete);
        },
    };
    let denom_decimals = match config.denom_decimals {
        Some(d) => d,
        None => {
            return Err(ConverterError::ConfigIncomplete);
        },
    };
    if funds.len() != 1 {
        return Err(ConverterError::InvalidFunds);
    }
    let coin = &funds[0];
    if !(coin.denom == native_denom) || coin.amount == 0 {
        return Err(ConverterError::InvalidFunds);
    }
    let mint_amount = match convert_to_basset_decimals(
        coin.amount,
        basset_decimals,
        denom_decimals,
    ) {
        Ok(m) => m,
        Err(e) => {
            return Err(e);
        },
    };
    let mut messages: Vec<OutMsg> = Vec::new();
    messages.push(
        OutMsg::MintBasset {
            contract_addr: basset_addr,
            recipient: sender.clone(),
            amount: mint_amount,
        },
    );
    let mut attributes: Vec<Attribute> = Vec::new();
    attributes.push(Attribute { key: "action".to_owned(), value: "convert-to-basset".to_owned() });
    attributes.push(Attribute { key: "recipient".to_owned(), value: sender });
    attributes.push(
        Attribute { key: "minted_amount".to_owned(), value: u128_to_dec_string(mint_amount) },
    );
    let resp = Response { messages, attributes };
    proof {
        let expected = spec_convert_to_basset(
            config@,
            sender@,
            coins_view(funds@),
            basset_decimals,
        )->Ok_0;
        assert(resp@ =~~= expected);
    }
    Ok(resp)
}

/// Returns native coin for a burned basset amount: a bank transfer of the
/// rescaled amount to the original sender, then a burn of the transferred
/// amount, per `spec_convert_to_native`.  `basset_decimals` is the ledger's
/// answer to the decimal-precision query.
pub fn execute_convert_to_native(
    config: &Config,
    amount: u128,
    sender: String,
    basset_decimals: u8,
) -> (r: Result<Response, ConverterError>)
    ensures
        match r {
            Ok(resp) => spec_convert_to_native(config@, amount, sender@, basset_decimals) == Ok::<
                ResponseView,
                ConverterError,
            >(resp@),
            Err(e) => spec_convert_to_native(config@, amount, sender@, basset_decimals) == Err::<
                ResponseView,
                ConverterError,
            >(e),
        },
{
    let basset_addr = match &config.basset_token_address {
        Some(a) => a.clone(),
        None => {
            return Err(ConverterError::ConfigIncomplete);
        },
    };
    let native_denom = match &config.native_denom {
        Some(d) => d.clone(),
        None => {
            return Err(ConverterError::ConfigIncomplete);
        },
    };
    let denom_decimals = match config.denom_decimals {
        Some(d) => d,
        None => {
            return Err(ConverterError::ConfigIncomplete);
        },
    };
    let return_amount = match convert_to_denom_decimals(amount, basset_decimals, denom_decimals) {
        Ok(m) => m,
        Err(e) => {
            return Err(e);
        },
    };
    let mut messages: Vec<OutMsg> = Vec::new();
    messages.push(
        OutMsg::BankSend {
            to_address: sender.clone(),
            coin: Coin { denom: native_denom, amount: return_amount },
        },
    );
    messages.push(OutMsg::BurnBasset { contract_addr: basset_addr, amount });
    let mut attributes: Vec<Attribute> = Vec::new();
    attributes.push(Attribute { key: "action".to_owned(), value: "convert-to-native".to_owned() });
    attributes.push(Attribute { key: "recipient".to_owned(), value: sender });
    attributes.push(
        Attribute { key: "return_amount".to_owned(), value: u128_to_dec_string(return_amount) },
    );
    attributes.push(Attribute { key: "burn_amount".to_owned(), value: u128_to_dec_string(amount) });
    let resp = Response { messages, attributes };
    proof {
        let expected = spec_convert_to_native(config@, amount, sender@, basset_decimals)->Ok_0;
        assert(resp@ =~~= expected);
    }
    Ok(resp)
}

/// Handles an inbound transfer-with-payload from the token ledger, per
/// `spec_receive`.  `token_contract` is the identity that delivered the
/// callback; only the registered ledger may.
pub fn receive_cw20(
    config: &Config,
    token_contract: &String,
    cw20_msg: Cw20ReceiveMsg,
    basset_decimals: u8,
) -> (r: Result<Response, ConverterError>)
    ensures
        match r {
            Ok(resp) => spec_receive(config@, token_contract@, cw20_msg@, basset_decimals) == Ok::<
                ResponseView,
                ConverterError,
            >(resp@),
            Err(e) => spec_receive(config@, token_contract@, cw20_msg@, basset_decimals) == Err::<
                ResponseView,
                ConverterError,
            >(e),
        },
{
    match cw20_msg.msg {
        None => Err(ConverterError::MalformedPayload),
        Some(Cw20HookMsg::ConvertBassetToNative) => {
            match &config.basset_token_address {
                None => Err(ConverterError::ConfigIncomplete),
                Some(registered) => {
                    if !(*token_contract == *registered) {
                        Err(ConverterError::Unauthorized)
                    } else {
                        execute_convert_to_native(
                            config,
                            cw20_msg.amount,
                            cw20_msg.sender,
                            basset_decimals,
                        )
                    }
                },
            }
        },
    }
}

/// Dispatches one operation against the state.  `sender` is the identity
/// that delivered the request; `funds` are the coins attached to it;
/// `basset_decimals` is the ledger's answer to the decimal-precision query,
/// read only by the conversion paths.
pub fn execute(
    config: &mut Config,
    new_owner: &mut NewOwnerAddr,
    sender: &String,
    funds: &Vec<Coin>,
    basset_decimals: u8,
    msg: ExecuteMsg,
) -> (r: Result<Response, ConverterError>)
    ensures
        match msg {
            ExecuteMsg::Receive(rmsg) => final(config)@ == old(config)@ && final(new_owner)@ == old(new_owner)@ && (match r {
                Ok(resp) => spec_receive(old(config)@, sender@, rmsg@, basset_decimals) == Ok::<
                    ResponseView,
                    ConverterError,
                >(resp@),
                Err(e) => spec_receive(old(config)@, sender@, rmsg@, basset_decimals) == Err::<
                    ResponseView,
                    ConverterError,
                >(e),
            }),
            ExecuteMsg::RegisterTokens { basset_token_address, native_denom, denom_decimals } => final(new_owner)@ == old(new_owner)@ && register_post(
                old(config)@,
                final(config)@,
                sender@,
                basset_token_address@,
                native_denom@,
                denom_decimals,
                r,
            ),
            ExecuteMsg::ConvertNativeToBasset => final(config)@ == old(config)@ && final(new_owner)@
                == old(new_owner)@ && (match r {
                Ok(resp) => spec_convert_to_basset(
                    old(config)@,
                    sender@,
                    coins_view(funds@),
                    basset_decimals,
                ) == Ok::<ResponseView, ConverterError>(resp@),
                Err(e) => spec_convert_to_basset(
                    old(config)@,
                    sender@,
                    coins_view(funds@),
                    basset_decimals,
                ) == Err::<ResponseView, ConverterError>(e),
            }),
            ExecuteMsg::SetOwner { new_owner_addr } => final(config)@ == old(config)@
                && set_new_owner_post(
                old(config)@,
                old(new_owner)@,
                final(new_owner)@,
                sender@,
                new_owner_addr@,
                r,
            ),
            ExecuteMsg::AcceptOwnership => final(new_owner)@ == old(new_owner)@
                && accept_ownership_post(
                old(config)@,
                final(config)@,
                old(new_owner)@,
                sender@,
                r,
            ),
        },
{
    match msg {
        ExecuteMsg::Receive(rmsg) => receive_cw20(&*config, sender, rmsg, basset_decimals),
        ExecuteMsg::RegisterTokens { basset_token_address, native_denom, denom_decimals } => {
            register_tokens(config, sender, basset_token_address, native_denom, denom_decimals)
        },
        ExecuteMsg::ConvertNativeToBasset => {
            execute_convert_to_basset(&*config, sender.clone(), funds, basset_decimals)
        },
        ExecuteMsg::SetOwner { new_owner_addr } => {
            set_new_owner(&*config, new_owner, sender, new_owner_addr)
        },
        ExecuteMsg::AcceptOwnership => accept_ownership(config, &*new_owner, sender),
    }
}

/// Registration fields are write-once: after one successful registration, a
/// second registration by the owner, with any values, succeeds and leaves
/// every field as the first call stored it.
pub proof fn lemma_register_write_once(
    cfg: ConfigView,
    sender: Seq<char>,
    b1: Seq<char>,
    n1: Seq<char>,
    d1: u8,
    b2: Seq<char>,
    n2: Seq<char>,
    d2: u8,
    cfg1: ConfigView,
)
    requires
        spec_register(cfg, sender, b1, n1, d1) == Ok::<ConfigView, ConverterError>(cfg1),
    ensures
        spec_register(cfg1, sender, b2, n2, d2) == Ok::<ConfigView, ConverterError>(cfg1),
{
    assert(spec_register(cfg1, sender, b2, n2, d2)->Ok_0 =~= cfg1);
}

/// Acceptance is refused to any identity other than the nominated one.
pub proof fn lemma_accept_requires_nominee(cfg: ConfigView, pending: Seq<char>, caller: Seq<char>)
    requires
        caller != pending,
    ensures
        spec_accept_ownership(cfg, pending, caller) == Err::<ConfigView, ConverterError>(
            ConverterError::Unauthorized,
        ),
{
}

/// After a completed handover to a different identity, the previous owner's
/// administrative calls — registration and nomination — are refused.
pub proof fn lemma_old_owner_loses_rights(
    cfg: ConfigView,
    pending: Seq<char>,
    cfg1: ConfigView,
    b: Seq<char>,
    n: Seq<char>,
    d: u8,
    pending1: Seq<char>,
    candidate: Seq<char>,
)
    requires
        spec_accept_ownership(cfg, pending, pending) == Ok::<ConfigView, ConverterError>(cfg1),
        cfg.owner != pending,
    ensures
        spec_register(cfg1, cfg.owner, b, n, d) == Err::<ConfigView, ConverterError>(
            ConverterError::Unauthorized,
        ),
        spec_set_new_owner(cfg1, pending1, cfg.owner, candidate) == Err::<Seq<char>, ConverterError>(
            ConverterError::Unauthorized,
        ),
{
}

} // verus!
