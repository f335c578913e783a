use ra_contracts::claimdrop::{
    execute, instantiate, query, ContractError, DistributorState, ExecuteMsg, InstantiateMsg,
    QueryMsg, QueryResponse,
};
use ra_contracts::types::{Coin, Instruction};

fn default_msg() -> InstantiateMsg {
    InstantiateMsg {
        admin: "cosmos1adminxxxxxxxxxxxxxxxxxxxxxxxxxxxxxxxxxxxx".to_string(),
        denom: "uretro".to_string(),
        claim_amount: 2_500_000_000,
        total_amount: 5_000_000_000,
    }
}

fn default_state() -> DistributorState {
    instantiate(default_msg()).unwrap()
}

fn claimed_count(state: &DistributorState) -> u64 {
    match query(state, QueryMsg::Stats {}) {
        QueryResponse::Stats(st) => st.claimed_count,
        other => panic!("unexpected response: {other:?}"),
    }
}

#[test]
fn instantiate_and_claim_once() {
    let mut state = default_state();

    let sender = "cosmos1claimerxxxxxxxxxxxxxxxxxxxxxxxxxxxxxxxxxx".to_string();
    let res = execute(&mut state, &sender, ExecuteMsg::Claim { recipient: None }, 0).unwrap();
    assert_eq!(res.len(), 1);

    let err = execute(&mut state, &sender, ExecuteMsg::Claim { recipient: None }, 0).unwrap_err();
    assert_eq!(err, ContractError::AlreadyClaimed);
}

#[test]
fn claim_cap_scenario() {
    let mut state = default_state();
    assert_eq!(state.config.max_claims, 2);

    let x = "addr_x".to_string();
    let res = execute(&mut state, &x, ExecuteMsg::Claim { recipient: None }, 0).unwrap();
    assert_eq!(
        res,
        vec![Instruction::BankSend {
            to_address: "addr_x".to_string(),
            amount: vec![Coin { denom: "uretro".to_string(), amount: 2_500_000_000 }],
        }]
    );
    assert_eq!(claimed_count(&state), 1);

    let y = "addr_y".to_string();
    execute(&mut state, &y, ExecuteMsg::Claim { recipient: None }, 0).unwrap();
    assert_eq!(claimed_count(&state), 2);

    let z = "addr_z".to_string();
    let err = execute(&mut state, &z, ExecuteMsg::Claim { recipient: None }, 0).unwrap_err();
    assert_eq!(err, ContractError::CapReached);
    assert_eq!(claimed_count(&state), 2);
}

#[test]
fn claim_with_explicit_recipient() {
    let mut state = default_state();

    let sender = "payer".to_string();
    let res = execute(
        &mut state,
        &sender,
        ExecuteMsg::Claim { recipient: Some("friend".to_string()) },
        0,
    )
    .unwrap();
    assert_eq!(
        res,
        vec![Instruction::BankSend {
            to_address: "friend".to_string(),
            amount: vec![Coin { denom: "uretro".to_string(), amount: 2_500_000_000 }],
        }]
    );

    // The sender itself has not claimed; the named recipient has.
    match query(&state, QueryMsg::IsClaimed { address: "payer".to_string() }) {
        QueryResponse::IsClaimed(ic) => assert!(!ic.is_claimed),
        other => panic!("unexpected response: {other:?}"),
    }
    match query(&state, QueryMsg::IsClaimed { address: "friend".to_string() }) {
        QueryResponse::IsClaimed(ic) => assert!(ic.is_claimed),
        other => panic!("unexpected response: {other:?}"),
    }

    // A second claim resolving to the same recipient fails, whoever sends.
    let other_sender = "friend".to_string();
    let err = execute(&mut state, &other_sender, ExecuteMsg::Claim { recipient: None }, 0)
        .unwrap_err();
    assert_eq!(err, ContractError::AlreadyClaimed);
}

#[test]
fn instantiate_rejects_bad_fields() {
    let blank = InstantiateMsg { denom: "  ".to_string(), ..default_msg() };
    assert_eq!(instantiate(blank).unwrap_err(), ContractError::InvalidDenom);

    let zero_claim = InstantiateMsg { claim_amount: 0, ..default_msg() };
    assert_eq!(instantiate(zero_claim).unwrap_err(), ContractError::InvalidClaimAmount);

    let zero_total = InstantiateMsg { total_amount: 0, ..default_msg() };
    assert_eq!(instantiate(zero_total).unwrap_err(), ContractError::InvalidTotalAmount);

    let uneven = InstantiateMsg { total_amount: 5_000_000_001, ..default_msg() };
    assert_eq!(instantiate(uneven).unwrap_err(), ContractError::TotalNotDivisible);

    // A quotient that does not fit the u64 cap field is rejected outright.
    let oversized = InstantiateMsg {
        claim_amount: 1,
        total_amount: 18_446_744_073_709_551_616, // u64::MAX + 1
        ..default_msg()
    };
    assert_eq!(instantiate(oversized).unwrap_err(), ContractError::CapTooLarge);
}

#[test]
fn update_config_requires_admin() {
    let mut state = default_state();
    let outsider = "someone".to_string();
    let err = execute(
        &mut state,
        &outsider,
        ExecuteMsg::UpdateConfig {
            admin: None,
            denom: None,
            claim_amount: Some(1),
            total_amount: None,
        },
        0,
    )
    .unwrap_err();
    assert_eq!(err, ContractError::Unauthorized);
    assert_eq!(state.config.claim_amount, 2_500_000_000);
}

#[test]
fn update_config_validates_merged_record() {
    let admin = default_msg().admin;
    let mut state = default_state();

    let err = execute(
        &mut state,
        &admin,
        ExecuteMsg::UpdateConfig {
            admin: None,
            denom: Some(" \t".to_string()),
            claim_amount: None,
            total_amount: None,
        },
        0,
    )
    .unwrap_err();
    assert_eq!(err, ContractError::InvalidDenom);

    let err = execute(
        &mut state,
        &admin,
        ExecuteMsg::UpdateConfig {
            admin: None,
            denom: None,
            claim_amount: Some(0),
            total_amount: None,
        },
        0,
    )
    .unwrap_err();
    assert_eq!(err, ContractError::InvalidClaimAmount);

    let err = execute(
        &mut state,
        &admin,
        ExecuteMsg::UpdateConfig {
            admin: None,
            denom: None,
            claim_amount: None,
            total_amount: Some(0),
        },
        0,
    )
    .unwrap_err();
    assert_eq!(err, ContractError::InvalidTotalAmount);

    // The merged record is validated as a whole: a new total that does not
    // divide by the kept claim amount is rejected, and nothing changes.
    let err = execute(
        &mut state,
        &admin,
        ExecuteMsg::UpdateConfig {
            admin: None,
            denom: None,
            claim_amount: None,
            total_amount: Some(2_500_000_001),
        },
        0,
    )
    .unwrap_err();
    assert_eq!(err, ContractError::TotalNotDivisible);
    assert_eq!(state.config.total_amount, 5_000_000_000);
    assert_eq!(state.config.max_claims, 2);

    // A merged record whose quotient does not fit the cap field is
    // rejected, and nothing changes.
    let err = execute(
        &mut state,
        &admin,
        ExecuteMsg::UpdateConfig {
            admin: None,
            denom: None,
            claim_amount: Some(1),
            total_amount: Some(18_446_744_073_709_551_616), // u64::MAX + 1
        },
        0,
    )
    .unwrap_err();
    assert_eq!(err, ContractError::CapTooLarge);
    assert_eq!(state.config.claim_amount, 2_500_000_000);
    assert_eq!(state.config.max_claims, 2);
}

#[test]
fn update_config_recomputes_cap() {
    let admin = default_msg().admin;
    let mut state = default_state();

    let res = execute(
        &mut state,
        &admin,
        ExecuteMsg::UpdateConfig {
            admin: Some("new_admin".to_string()),
            denom: Some("unew".to_string()),
            claim_amount: Some(25),
            total_amount: Some(100),
        },
        0,
    )
    .unwrap();
    assert!(res.is_empty());

    let cfg = match query(&state, QueryMsg::Config {}) {
        QueryResponse::Config(c) => c,
        other => panic!("unexpected response: {other:?}"),
    };
    assert_eq!(cfg.admin, "new_admin");
    assert_eq!(cfg.denom, "unew");
    assert_eq!(cfg.claim_amount, 25);
    assert_eq!(cfg.total_amount, 100);
    assert_eq!(cfg.max_claims, 4);
    // The exact-total law on the committed record.
    assert_eq!(cfg.total_amount, cfg.claim_amount * u128::from(cfg.max_claims));

    // The old admin no longer has authority.
    let err = execute(
        &mut state,
        &admin,
        ExecuteMsg::UpdateConfig {
            admin: None,
            denom: None,
            claim_amount: None,
            total_amount: None,
        },
        0,
    )
    .unwrap_err();
    assert_eq!(err, ContractError::Unauthorized);
}

#[test]
fn withdraw_requires_admin() {
    let mut state = default_state();
    let outsider = "someone".to_string();
    let err = execute(
        &mut state,
        &outsider,
        ExecuteMsg::Withdraw { recipient: "sink".to_string(), amount: None },
        9,
    )
    .unwrap_err();
    assert_eq!(err, ContractError::Unauthorized);
}

#[test]
fn withdraw_explicit_amount_is_sent_as_given() {
    let admin = default_msg().admin;
    let mut state = default_state();

    // An explicit coin is sent exactly, even in another denomination.
    let res = execute(
        &mut state,
        &admin,
        ExecuteMsg::Withdraw {
            recipient: "sink".to_string(),
            amount: Some(Coin { denom: "uother".to_string(), amount: 42 }),
        },
        0,
    )
    .unwrap();
    assert_eq!(
        res,
        vec![Instruction::BankSend {
            to_address: "sink".to_string(),
            amount: vec![Coin { denom: "uother".to_string(), amount: 42 }],
        }]
    );
}

#[test]
fn withdraw_without_amount_sweeps_balance() {
    let admin = default_msg().admin;
    let mut state = default_state();

    // A zero balance is an explicit no-op, not an error.
    let res = execute(
        &mut state,
        &admin,
        ExecuteMsg::Withdraw { recipient: "sink".to_string(), amount: None },
        0,
    )
    .unwrap();
    assert!(res.is_empty());

    // A positive balance is swept whole, in the configured denomination.
    let res = execute(
        &mut state,
        &admin,
        ExecuteMsg::Withdraw { recipient: "sink".to_string(), amount: None },
        7_777,
    )
    .unwrap();
    assert_eq!(
        res,
        vec![Instruction::BankSend {
            to_address: "sink".to_string(),
            amount: vec![Coin { denom: "uretro".to_string(), amount: 7_777 }],
        }]
    );
}

#[test]
fn queries_are_idempotent() {
    let mut state = default_state();
    let sender = "reader".to_string();
    execute(&mut state, &sender, ExecuteMsg::Claim { recipient: None }, 0).unwrap();

    let first_config = query(&state, QueryMsg::Config {});
    let second_config = query(&state, QueryMsg::Config {});
    assert_eq!(first_config, second_config);

    let first_stats = query(&state, QueryMsg::Stats {});
    let second_stats = query(&state, QueryMsg::Stats {});
    assert_eq!(first_stats, second_stats);

    let first_claimed = query(&state, QueryMsg::IsClaimed { address: "reader".to_string() });
    let second_claimed = query(&state, QueryMsg::IsClaimed { address: "reader".to_string() });
    assert_eq!(first_claimed, second_claimed);
}
