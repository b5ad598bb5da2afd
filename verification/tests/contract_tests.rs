use basset_converter::contract::{execute, instantiate, query, query_config};
use basset_converter::math::ConverterError;
use basset_converter::msg::{
    default_init, ConfigResponse, Cw20HookMsg, Cw20ReceiveMsg, ExecuteMsg, QueryAnswer, QueryMsg,
};
use basset_converter::response::{Attribute, Coin, OutMsg};

const MOCK_OWNER_ADDR: &str = "owner0000";
const MOCK_BASSET_TOKEN_CONTRACT_ADDR: &str = "cw20_token0000";
const MOCK_NATIVE_CONTRACT_ADDR: &str = "native_token0000";

fn register_msg() -> ExecuteMsg {
    ExecuteMsg::RegisterTokens {
        basset_token_address: MOCK_BASSET_TOKEN_CONTRACT_ADDR.to_string(),
        native_denom: MOCK_NATIVE_CONTRACT_ADDR.to_string(),
        denom_decimals: 8,
    }
}

#[test]
fn proper_init() {
    let init_msg = default_init();

    let (config, _new_owner, res) = instantiate(init_msg);
    assert_eq!(0, res.messages.len());

    let config_response = query_config(&config);
    assert_eq!(
        config_response,
        ConfigResponse {
            owner: MOCK_OWNER_ADDR.to_string(),
            native_denom: None,
            basset_token_address: None,
        }
    );
}

#[test]
fn proper_convert_to_basset() {
    let init_msg = default_init();
    let sender = "addr0000";

    let (mut config, mut new_owner, res) = instantiate(init_msg);
    assert_eq!(0, res.messages.len());

    // basset decimals 6, native decimals 8
    let basset_decimals: u8 = 6;

    let res = execute(
        &mut config,
        &mut new_owner,
        &MOCK_OWNER_ADDR.to_string(),
        &vec![],
        basset_decimals,
        register_msg(),
    )
    .unwrap();
    assert_eq!(
        res.attributes[0],
        Attribute {
            key: "action".to_string(),
            value: "register_token_contracts".to_string()
        }
    );

    let msg = ExecuteMsg::ConvertNativeToBasset;

    // successful request
    let funds = vec![Coin {
        denom: MOCK_NATIVE_CONTRACT_ADDR.to_string(),
        amount: 100000000,
    }];
    let res = execute(
        &mut config,
        &mut new_owner,
        &sender.to_string(),
        &funds,
        basset_decimals,
        msg.clone(),
    )
    .unwrap();
    assert_eq!(res.messages.len(), 1);
    assert_eq!(
        res.messages[0],
        OutMsg::MintBasset {
            contract_addr: MOCK_BASSET_TOKEN_CONTRACT_ADDR.to_string(),
            recipient: sender.to_string(),
            // 100000000 / 10^2 = 1000000
            amount: 1000000,
        }
    );

    // cannot convert less than 100 micro native
    let funds = vec![Coin {
        denom: MOCK_NATIVE_CONTRACT_ADDR.to_string(),
        amount: 1,
    }];
    let res = execute(
        &mut config,
        &mut new_owner,
        &sender.to_string(),
        &funds,
        basset_decimals,
        msg,
    )
    .unwrap_err();
    assert_eq!(res, ConverterError::AmountTooSmall { factor: 100 });
}

#[test]
fn proper_convert_to_native() {
    let init_msg = default_init();
    let sender = "addr0000";

    let (mut config, mut new_owner, res) = instantiate(init_msg);
    assert_eq!(0, res.messages.len());

    // basset decimals 6, native decimals 8
    let basset_decimals: u8 = 6;

    let res = execute(
        &mut config,
        &mut new_owner,
        &MOCK_OWNER_ADDR.to_string(),
        &vec![],
        basset_decimals,
        register_msg(),
    )
    .unwrap();
    assert_eq!(
        res.attributes[0],
        Attribute {
            key: "action".to_string(),
            value: "register_token_contracts".to_string()
        }
    );

    let receive_msg = ExecuteMsg::Receive(Cw20ReceiveMsg {
        sender: sender.to_string(),
        amount: 100000000,
        msg: Some(Cw20HookMsg::ConvertBassetToNative),
    });

    // unauthorized request
    let error_res = execute(
        &mut config,
        &mut new_owner,
        &"invalid".to_string(),
        &vec![],
        basset_decimals,
        receive_msg.clone(),
    )
    .unwrap_err();
    assert_eq!(error_res, ConverterError::Unauthorized);

    // successful
    let res = execute(
        &mut config,
        &mut new_owner,
        &MOCK_BASSET_TOKEN_CONTRACT_ADDR.to_string(),
        &vec![],
        basset_decimals,
        receive_msg,
    )
    .unwrap();
    assert_eq!(res.messages.len(), 2);
    assert_eq!(
        res.messages[0],
        OutMsg::BankSend {
            to_address: sender.to_string(),
            coin: Coin {
                // 100000000 * 10^2 = 10000000000
                amount: 10000000000,
                denom: MOCK_NATIVE_CONTRACT_ADDR.to_string(),
            },
        }
    );
    assert_eq!(
        res.messages[1],
        OutMsg::BurnBasset {
            contract_addr: MOCK_BASSET_TOKEN_CONTRACT_ADDR.to_string(),
            amount: 100000000,
        }
    );
}

#[test]
fn proper_convert_to_basset_with_more_decimals() {
    let init_msg = default_init();
    let sender = "addr0000";

    let (mut config, mut new_owner, res) = instantiate(init_msg);
    assert_eq!(0, res.messages.len());

    // basset decimals 10, native decimals 8
    let basset_decimals: u8 = 10;

    let res = execute(
        &mut config,
        &mut new_owner,
        &MOCK_OWNER_ADDR.to_string(),
        &vec![],
        basset_decimals,
        register_msg(),
    )
    .unwrap();
    assert_eq!(
        res.attributes[0],
        Attribute {
            key: "action".to_string(),
            value: "register_token_contracts".to_string()
        }
    );

    // successful request
    let funds = vec![Coin {
        denom: MOCK_NATIVE_CONTRACT_ADDR.to_string(),
        amount: 100000000,
    }];
    let res = execute(
        &mut config,
        &mut new_owner,
        &sender.to_string(),
        &funds,
        basset_decimals,
        ExecuteMsg::ConvertNativeToBasset,
    )
    .unwrap();
    assert_eq!(res.messages.len(), 1);
    assert_eq!(
        res.messages[0],
        OutMsg::MintBasset {
            contract_addr: MOCK_BASSET_TOKEN_CONTRACT_ADDR.to_string(),
            recipient: sender.to_string(),
            // basset decimals is bigger than native then we should multiply with 10^2
            // 100000000 * 10^2 = 10000000000
            amount: 10000000000,
        }
    );
}

#[test]
fn proper_convert_to_native_with_less_decimals() {
    let init_msg = default_init();
    let sender = "addr0000";

    let (mut config, mut new_owner, res) = instantiate(init_msg);
    assert_eq!(0, res.messages.len());

    // basset decimals 10, native decimals 8
    let basset_decimals: u8 = 10;

    let res = execute(
        &mut config,
        &mut new_owner,
        &MOCK_OWNER_ADDR.to_string(),
        &vec![],
        basset_decimals,
        register_msg(),
    )
    .unwrap();
    assert_eq!(
        res.attributes[0],
        Attribute {
            key: "action".to_string(),
            value: "register_token_contracts".to_string()
        }
    );

    let receive_msg = ExecuteMsg::Receive(Cw20ReceiveMsg {
        sender: sender.to_string(),
        amount: 100000000,
        msg: Some(Cw20HookMsg::ConvertBassetToNative),
    });

    // unauthorized request
    let error_res = execute(
        &mut config,
        &mut new_owner,
        &"invalid".to_string(),
        &vec![],
        basset_decimals,
        receive_msg.clone(),
    )
    .unwrap_err();
    assert_eq!(error_res, ConverterError::Unauthorized);

    // successful
    let res = execute(
        &mut config,
        &mut new_owner,
        &MOCK_BASSET_TOKEN_CONTRACT_ADDR.to_string(),
        &vec![],
        basset_decimals,
        receive_msg,
    )
    .unwrap();
    assert_eq!(res.messages.len(), 2);
    assert_eq!(
        res.messages[0],
        OutMsg::BankSend {
            to_address: sender.to_string(),
            coin: Coin {
                // basset decimals is bigger than native then we should divide with 10^2
                // 100000000 / 10^2 = 1000000
                amount: 1000000,
                denom: MOCK_NATIVE_CONTRACT_ADDR.to_string(),
            },
        }
    );
    assert_eq!(
        res.messages[1],
        OutMsg::BurnBasset {
            contract_addr: MOCK_BASSET_TOKEN_CONTRACT_ADDR.to_string(),
            amount: 100000000,
        }
    );

    // cannot convert less than 100 micro basset
    let receive_msg = ExecuteMsg::Receive(Cw20ReceiveMsg {
        sender: sender.to_string(),
        amount: 1,
        msg: Some(Cw20HookMsg::ConvertBassetToNative),
    });
    let res = execute(
        &mut config,
        &mut new_owner,
        &MOCK_BASSET_TOKEN_CONTRACT_ADDR.to_string(),
        &vec![],
        basset_decimals,
        receive_msg,
    )
    .unwrap_err();
    assert_eq!(res, ConverterError::AmountTooSmall { factor: 100 });
}

#[test]
fn proper_update_config() {
    let init_msg = default_init();

    let (mut config, mut new_owner, res) = instantiate(init_msg);
    assert_eq!(0, res.messages.len());

    // unauthorized request
    let error_res = execute(
        &mut config,
        &mut new_owner,
        &"invalid".to_string(),
        &vec![],
        6,
        register_msg(),
    )
    .unwrap_err();
    assert_eq!(error_res, ConverterError::Unauthorized);

    // successful one
    let res = execute(
        &mut config,
        &mut new_owner,
        &MOCK_OWNER_ADDR.to_string(),
        &vec![],
        6,
        register_msg(),
    )
    .unwrap();
    assert_eq!(
        res.attributes[0],
        Attribute {
            key: "action".to_string(),
            value: "register_token_contracts".to_string()
        }
    );

    let answer = query(&config, &new_owner, QueryMsg::Config);
    assert_eq!(
        answer,
        QueryAnswer::Config(ConfigResponse {
            owner: MOCK_OWNER_ADDR.to_string(),
            basset_token_address: Some("cw20_token0000".to_string()),
            native_denom: Some("native_token0000".to_string()),
        })
    );
}
