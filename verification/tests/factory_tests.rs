use ollo::asset::AssetInfo;
use ollo::error::Error;
use ollo::factory::{InstantiateMsg, Registry};
use ollo::pair::{PairConfig, PairType};

fn native(denom: &str) -> AssetInfo {
    AssetInfo::NativeToken { denom: denom.to_string() }
}

fn config(pair_type: PairType, disabled: bool) -> PairConfig {
    PairConfig {
        contract_id: 7,
        pair_type,
        total_fee_bps: 30,
        maker_fee_bps: 10,
        is_disabled: disabled,
        is_generator_disabled: false,
    }
}

fn base_msg() -> InstantiateMsg {
    InstantiateMsg {
        pair_configs: vec![
            config(PairType::ConstProduct {}, false),
            config(PairType::Stable {}, true),
        ],
        token_code_id: 11,
        fee_address: Some("wasm1fees".to_string()),
        generator_address: None,
        owner: "wasm1owner".to_string(),
        whitelist_code_id: 22,
    }
}

fn registry() -> Registry {
    Registry::instantiate(base_msg()).unwrap()
}

fn owner() -> String {
    "wasm1owner".to_string()
}

#[test]
fn instantiate_rejects_invalid_fee_bps() {
    let mut msg = base_msg();
    msg.pair_configs[0].total_fee_bps = 10_001;
    match Registry::instantiate(msg) {
        Err(e) => assert_eq!(e, Error::InvalidFeeBps),
        Ok(_) => panic!("expected InvalidFeeBps"),
    }
}

#[test]
fn instantiate_starts_empty() {
    let reg = registry();
    assert_eq!(reg.pairs.len(), 0);
    assert!(reg.ownership_proposal.is_none());
    assert_eq!(reg.owner, "wasm1owner");
}

#[test]
fn create_pair_in_reversed_order_resolves_canonical_query() {
    let mut reg = registry();
    let a = native("uusd");
    let b = native("uluna");
    // register with the assets in non-canonical (reversed) order
    reg.create_pair(
        PairType::ConstProduct {},
        vec![b.clone(), a.clone()],
        "wasm1pair".to_string(),
        "wasm1lp".to_string(),
    )
    .unwrap();
    // query with the two assets in the other order
    let found = reg.pair(&vec![a.clone(), b.clone()]).unwrap();
    assert_eq!(found.contract_addr, "wasm1pair");
    assert_eq!(found.liquidity_token, "wasm1lp");
    let found_rev = reg.pair(&vec![b, a]).unwrap();
    assert_eq!(found_rev.contract_addr, "wasm1pair");
}

#[test]
fn create_pair_rejects_wrong_asset_count() {
    let mut reg = registry();
    let r = reg.create_pair(
        PairType::ConstProduct {},
        vec![native("uusd")],
        "wasm1pair".to_string(),
        "wasm1lp".to_string(),
    );
    assert_eq!(r, Err(Error::InvalidAssetLength));
}

#[test]
fn create_pair_rejects_malformed_asset() {
    let mut reg = registry();
    let r = reg.create_pair(
        PairType::ConstProduct {},
        vec![native("UUSD"), native("uluna")],
        "wasm1pair".to_string(),
        "wasm1lp".to_string(),
    );
    assert_eq!(r, Err(Error::DenomNotLowercase { denom: "UUSD".to_string() }));
}

#[test]
fn create_pair_rejects_unconfigured_pool_type() {
    let mut reg = registry();
    let r = reg.create_pair(
        PairType::Ranged {},
        vec![native("uusd"), native("uluna")],
        "wasm1pair".to_string(),
        "wasm1lp".to_string(),
    );
    assert_eq!(r, Err(Error::PairConfigNotFound));
}

#[test]
fn create_pair_rejects_disabled_pool_type() {
    let mut reg = registry();
    let r = reg.create_pair(
        PairType::Stable {},
        vec![native("uusd"), native("uluna")],
        "wasm1pair".to_string(),
        "wasm1lp".to_string(),
    );
    assert_eq!(r, Err(Error::PairConfigDisabled));
}

#[test]
fn create_pair_rejects_duplicate_pair() {
    let mut reg = registry();
    let infos = vec![native("uusd"), native("uluna")];
    reg.create_pair(
        PairType::ConstProduct {},
        infos.clone(),
        "wasm1pair".to_string(),
        "wasm1lp".to_string(),
    )
    .unwrap();
    let r = reg.create_pair(
        PairType::ConstProduct {},
        vec![native("uluna"), native("uusd")],
        "wasm1other".to_string(),
        "wasm1otherlp".to_string(),
    );
    assert_eq!(r, Err(Error::PairAlreadyExists));
}

#[test]
fn deregister_removes_the_pair() {
    let mut reg = registry();
    let infos = vec![native("uusd"), native("uluna")];
    reg.create_pair(
        PairType::ConstProduct {},
        infos.clone(),
        "wasm1pair".to_string(),
        "wasm1lp".to_string(),
    )
    .unwrap();
    reg.deregister(&vec![native("uluna"), native("uusd")]).unwrap();
    assert_eq!(reg.pair(&infos), Err(Error::PairNotFound));
}

#[test]
fn deregister_missing_pair_fails() {
    let mut reg = registry();
    assert_eq!(
        reg.deregister(&vec![native("uusd"), native("uluna")]),
        Err(Error::PairNotFound)
    );
}

#[test]
fn update_pair_config_is_owner_only() {
    let mut reg = registry();
    let r = reg.update_pair_config(
        &"wasm1mallory".to_string(),
        config(PairType::ConstProduct {}, false),
    );
    assert_eq!(r, Err(Error::Unauthorized));
}

#[test]
fn update_pair_config_rejects_invalid_fees() {
    let mut reg = registry();
    let mut c = config(PairType::ConstProduct {}, false);
    c.maker_fee_bps = 10_001;
    assert_eq!(reg.update_pair_config(&owner(), c), Err(Error::InvalidFeeBps));
}

#[test]
fn update_pair_config_replaces_and_inserts() {
    let mut reg = registry();
    let mut c = config(PairType::ConstProduct {}, false);
    c.total_fee_bps = 55;
    reg.update_pair_config(&owner(), c).unwrap();
    assert_eq!(reg.pair_configs.len(), 2);
    assert_eq!(reg.pair_configs[0].total_fee_bps, 55);
    reg.update_pair_config(&owner(), config(PairType::Ranged {}, false)).unwrap();
    assert_eq!(reg.pair_configs.len(), 3);
}

#[test]
fn update_config_sets_given_fields_only() {
    let mut reg = registry();
    reg.update_config(&owner(), Some(99), None, Some("wasm1gen".to_string()), None).unwrap();
    assert_eq!(reg.token_code_id, 99);
    assert_eq!(reg.fee_address, Some("wasm1fees".to_string()));
    assert_eq!(reg.generator_address, Some("wasm1gen".to_string()));
    assert_eq!(reg.whitelist_code_id, 22);
    assert_eq!(
        reg.update_config(&"wasm1mallory".to_string(), None, None, None, None),
        Err(Error::Unauthorized)
    );
}

#[test]
fn ownership_transfer_succeeds_before_expiry() {
    let mut reg = registry();
    reg.propose_new_owner(&owner(), "wasm1next".to_string(), 100, 1_000).unwrap();
    reg.claim_ownership(&"wasm1next".to_string(), 1_100).unwrap();
    assert_eq!(reg.owner, "wasm1next");
    assert!(reg.ownership_proposal.is_none());
}

#[test]
fn ownership_claim_fails_after_expiry() {
    let mut reg = registry();
    reg.propose_new_owner(&owner(), "wasm1next".to_string(), 100, 1_000).unwrap();
    assert_eq!(
        reg.claim_ownership(&"wasm1next".to_string(), 1_101),
        Err(Error::ProposalExpired)
    );
    assert_eq!(reg.owner, "wasm1owner");
}

#[test]
fn ownership_claim_without_proposal_fails() {
    let mut reg = registry();
    assert_eq!(reg.claim_ownership(&"wasm1next".to_string(), 0), Err(Error::ProposalNotFound));
}

#[test]
fn ownership_claim_by_wrong_sender_fails() {
    let mut reg = registry();
    reg.propose_new_owner(&owner(), "wasm1next".to_string(), 100, 1_000).unwrap();
    assert_eq!(
        reg.claim_ownership(&"wasm1mallory".to_string(), 1_050),
        Err(Error::Unauthorized)
    );
}

#[test]
fn ownership_proposal_can_be_cancelled() {
    let mut reg = registry();
    reg.propose_new_owner(&owner(), "wasm1next".to_string(), 100, 1_000).unwrap();
    reg.cancel_ownership_proposal(&owner()).unwrap();
    assert_eq!(
        reg.claim_ownership(&"wasm1next".to_string(), 1_050),
        Err(Error::ProposalNotFound)
    );
}

#[test]
fn mark_as_migrated_is_idempotent() {
    let mut reg = registry();
    reg.create_pair(
        PairType::ConstProduct {},
        vec![native("uusd"), native("uluna")],
        "wasm1pair".to_string(),
        "wasm1lp".to_string(),
    )
    .unwrap();
    reg.create_pair(
        PairType::ConstProduct {},
        vec![native("uusd"), native("ukrw")],
        "wasm1pair2".to_string(),
        "wasm1lp2".to_string(),
    )
    .unwrap();
    assert_eq!(reg.pairs_to_migrate(), vec!["wasm1pair", "wasm1pair2"]);
    reg.mark_as_migrated(&owner(), vec!["wasm1pair".to_string()]).unwrap();
    reg.mark_as_migrated(&owner(), vec!["wasm1pair".to_string()]).unwrap();
    assert_eq!(reg.migrated, vec!["wasm1pair"]);
    assert_eq!(reg.pairs_to_migrate(), vec!["wasm1pair2"]);
    assert_eq!(
        reg.mark_as_migrated(&"wasm1mallory".to_string(), vec![]),
        Err(Error::Unauthorized)
    );
}

#[test]
fn blacklisted_pair_types_lists_disabled_configs() {
    let reg = registry();
    assert_eq!(reg.blacklisted_pair_types(), vec![PairType::Stable {}]);
}

#[test]
fn fee_info_reports_the_config() {
    let reg = registry();
    let f = reg.fee_info(&PairType::ConstProduct {}).unwrap();
    assert_eq!(f.fee_address, Some("wasm1fees".to_string()));
    assert_eq!(f.total_fee_bps, 30);
    assert_eq!(f.maker_fee_bps, 10);
    assert_eq!(reg.fee_info(&PairType::Ranged {}), Err(Error::PairConfigNotFound));
}

#[test]
fn config_snapshot_reflects_state() {
    let reg = registry();
    let c = reg.config();
    assert_eq!(c.owner, "wasm1owner");
    assert_eq!(c.pair_configs.len(), 2);
    assert_eq!(c.token_code_id, 11);
    assert_eq!(c.fee_address, Some("wasm1fees".to_string()));
    assert_eq!(c.generator_address, None);
    assert_eq!(c.whitelist_code_id, 22);
}

#[test]
fn pairs_query_pages_through_the_registry() {
    let mut reg = registry();
    let denoms = ["ua", "ub", "uc", "ud"];
    for (k, d) in denoms.iter().enumerate() {
        reg.create_pair(
            PairType::ConstProduct {},
            vec![native(d), native("uusd")],
            format!("wasm1pair{}", k),
            format!("wasm1lp{}", k),
        )
        .unwrap();
    }
    let all = reg.pairs(None, None).unwrap();
    assert_eq!(all.pairs.len(), 4);
    let first_two = reg.pairs(None, Some(2)).unwrap();
    assert_eq!(first_two.pairs.len(), 2);
    assert_eq!(first_two.pairs[0].contract_addr, "wasm1pair0");
    let after = reg
        .pairs(Some(&vec![native("ub"), native("uusd")]), Some(10))
        .unwrap();
    assert_eq!(after.pairs.len(), 2);
    assert_eq!(after.pairs[0].contract_addr, "wasm1pair2");
    let after_missing = reg
        .pairs(Some(&vec![native("uzz"), native("uusd")]), None)
        .unwrap();
    assert_eq!(after_missing.pairs.len(), 0);
}
