use ollo::asset::{
    addr_validate_to_lower, Asset, AssetInfo, Coin, MessageInfo, PoolQuery, TransferMsg,
};
use ollo::error::Error;

fn native(denom: &str) -> AssetInfo {
    AssetInfo::NativeToken { denom: denom.to_string() }
}

fn token(addr: &str) -> AssetInfo {
    AssetInfo::Token { contract_addr: addr.to_string() }
}

#[test]
fn equal_is_reflexive_and_symmetric() {
    let a = native("uusd");
    let b = token("uusd");
    let c = native("uluna");
    assert!(a.equal(&a));
    assert!(b.equal(&b));
    assert!(!a.equal(&b));
    assert!(!b.equal(&a));
    assert_eq!(a.equal(&c), c.equal(&a));
    assert!(a.equal(&native("uusd")));
}

#[test]
fn is_native_token_distinguishes_variants() {
    assert!(native("uusd").is_native_token());
    assert!(!token("wasm1abc").is_native_token());
    let asset = Asset { info: native("uusd"), amount: 7 };
    assert!(asset.is_native_token());
    let asset = Asset { info: token("wasm1abc"), amount: 7 };
    assert!(!asset.is_native_token());
}

#[test]
fn check_accepts_lowercase_denom() {
    assert!(native("uusd").check().is_ok());
}

#[test]
fn check_rejects_uppercase_denom() {
    match native("uUSD").check() {
        Err(Error::DenomNotLowercase { denom }) => assert_eq!(denom, "uUSD"),
        other => panic!("expected DenomNotLowercase, got {:?}", other),
    }
}

#[test]
fn check_accepts_ibc_prefixed_denom_literally() {
    assert!(native("ibc/ABCDEF").check().is_ok());
}

#[test]
fn check_rejects_uppercase_without_ibc_prefix() {
    assert!(native("IBC-ABCDEF").check().is_err());
}

#[test]
fn check_accepts_lowercase_contract_addr() {
    assert!(token("wasm1contract").check().is_ok());
}

#[test]
fn check_rejects_uppercase_contract_addr() {
    match token("Wasm1Contract").check() {
        Err(Error::AddrNotLowercase { addr }) => assert_eq!(addr, "Wasm1Contract"),
        other => panic!("expected AddrNotLowercase, got {:?}", other),
    }
}

#[test]
fn addr_validate_to_lower_accepts_and_rejects() {
    assert_eq!(addr_validate_to_lower(&"wasm1abc".to_string()), Ok("wasm1abc".to_string()));
    match addr_validate_to_lower(&"Wasm1Abc".to_string()) {
        Err(Error::AddrNotLowercase { addr }) => assert_eq!(addr, "Wasm1Abc"),
        other => panic!("expected AddrNotLowercase, got {:?}", other),
    }
}

#[test]
fn as_bytes_returns_identifier_bytes() {
    assert_eq!(native("uusd").as_bytes(), b"uusd");
    assert_eq!(token("wasm1abc").as_bytes(), b"wasm1abc");
}

#[test]
fn compute_tax_is_always_zero() {
    let a = Asset { info: native("uusd"), amount: 123_456_789 };
    assert_eq!(a.compute_tax(), Ok(0));
    let b = Asset { info: token("wasm1abc"), amount: u128::MAX };
    assert_eq!(b.compute_tax(), Ok(0));
}

#[test]
fn deduct_tax_keeps_full_native_amount() {
    let a = Asset { info: native("uusd"), amount: 500 };
    let coin = a.deduct_tax().unwrap();
    assert_eq!(coin.denom, "uusd");
    assert_eq!(coin.amount, 500);
}

#[test]
fn deduct_tax_fails_on_contract_token() {
    let a = Asset { info: token("wasm1abc"), amount: 500 };
    assert_eq!(a.deduct_tax(), Err(Error::CannotDeductTax));
}

#[test]
fn decimals_native_uses_protocol_precision() {
    assert_eq!(native("uusd").decimals(None), Ok(6));
    assert_eq!(native("uusd").decimals(Some(9)), Ok(6));
}

#[test]
fn decimals_token_uses_reported_value() {
    assert_eq!(token("wasm1abc").decimals(Some(8)), Ok(8));
    assert_eq!(token("wasm1abc").decimals(None), Err(Error::QueryFailed));
}

#[test]
fn pool_query_dispatches_by_variant() {
    let pool = "wasm1pool".to_string();
    match native("uusd").pool_query(&pool) {
        PoolQuery::NativeBalance { address, denom } => {
            assert_eq!(address, "wasm1pool");
            assert_eq!(denom, "uusd");
        }
        other => panic!("expected NativeBalance, got {:?}", other),
    }
    match token("wasm1token").pool_query(&pool) {
        PoolQuery::TokenBalance { contract_addr, account } => {
            assert_eq!(contract_addr, "wasm1token");
            assert_eq!(account, "wasm1pool");
        }
        other => panic!("expected TokenBalance, got {:?}", other),
    }
}

#[test]
fn sent_balance_zero_amount_without_entry_is_accepted() {
    let a = Asset { info: native("uusd"), amount: 0 };
    let info = MessageInfo { sender: "wasm1sender".to_string(), funds: vec![] };
    assert!(a.assert_sent_native_token_balance(&info).is_ok());
}

#[test]
fn sent_balance_mismatch_is_rejected() {
    let a = Asset { info: native("uusd"), amount: 5 };
    let info = MessageInfo {
        sender: "wasm1sender".to_string(),
        funds: vec![Coin { denom: "uusd".to_string(), amount: 4 }],
    };
    assert_eq!(a.assert_sent_native_token_balance(&info), Err(Error::NativeBalanceMismatch));
}

#[test]
fn sent_balance_exact_match_is_accepted() {
    let a = Asset { info: native("uusd"), amount: 5 };
    let info = MessageInfo {
        sender: "wasm1sender".to_string(),
        funds: vec![
            Coin { denom: "uluna".to_string(), amount: 9 },
            Coin { denom: "uusd".to_string(), amount: 5 },
        ],
    };
    assert!(a.assert_sent_native_token_balance(&info).is_ok());
}

#[test]
fn sent_balance_missing_entry_with_nonzero_amount_is_rejected() {
    let a = Asset { info: native("uusd"), amount: 5 };
    let info = MessageInfo {
        sender: "wasm1sender".to_string(),
        funds: vec![Coin { denom: "uluna".to_string(), amount: 5 }],
    };
    assert_eq!(a.assert_sent_native_token_balance(&info), Err(Error::NativeBalanceMismatch));
}

#[test]
fn sent_balance_ignores_contract_tokens() {
    let a = Asset { info: token("wasm1abc"), amount: 5 };
    let info = MessageInfo { sender: "wasm1sender".to_string(), funds: vec![] };
    assert!(a.assert_sent_native_token_balance(&info).is_ok());
}

#[test]
fn into_msg_native_builds_bank_send() {
    let a = Asset { info: native("uusd"), amount: 77 };
    match a.into_msg("wasm1recipient".to_string()).unwrap() {
        TransferMsg::BankSend { to_address, amount } => {
            assert_eq!(to_address, "wasm1recipient");
            assert_eq!(amount.len(), 1);
            assert_eq!(amount[0].denom, "uusd");
            assert_eq!(amount[0].amount, 77);
        }
        other => panic!("expected BankSend, got {:?}", other),
    }
}

#[test]
fn into_msg_token_serializes_cw20_transfer() {
    let a = Asset { info: token("wasm1token"), amount: 77 };
    match a.into_msg("wasm1recipient".to_string()).unwrap() {
        TransferMsg::Cw20Execute { contract_addr, msg, funds } => {
            assert_eq!(contract_addr, "wasm1token");
            assert!(funds.is_empty());
            let expected = cosmwasm_std::to_binary(&cw20::Cw20ExecuteMsg::Transfer {
                recipient: "wasm1recipient".to_string(),
                amount: cosmwasm_std::Uint128::new(77),
            })
            .unwrap();
            assert_eq!(msg, expected.0);
        }
        other => panic!("expected Cw20Execute, got {:?}", other),
    }
}

#[test]
fn to_decimal_asset_scales_amount() {
    let a = Asset { info: native("uusd"), amount: 100 };
    let d = a.to_decimal_asset(6).unwrap();
    assert!(d.info.equal(&native("uusd")));
    assert_eq!(d.amount.hi, 0);
    assert_eq!(d.amount.lo, 100_000_000_000_000);
}

#[test]
fn to_decimal_asset_out_of_range_precision_yields_zero() {
    let a = Asset { info: native("uusd"), amount: u128::MAX };
    let d = a.to_decimal_asset(200).unwrap();
    assert_eq!(d.amount.hi, 0);
    assert_eq!(d.amount.lo, 0);
}

#[test]
fn display_strings_show_amount_and_identifier() {
    assert_eq!(native("uusd").display_string(), "uusd");
    assert_eq!(token("wasm1abc").display_string(), "wasm1abc");
    let a = Asset { info: native("uusd"), amount: 100 };
    assert_eq!(a.display_string(), "100uusd");
    let z = Asset { info: token("wasm1abc"), amount: 0 };
    assert_eq!(z.display_string(), "0wasm1abc");
}
