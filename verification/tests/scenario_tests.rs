use vesting_contract::contract::{
    claim, deregister_vesting_account, execute, migrate, vested_tokens, vesting_account,
    TransferIntent,
};
use vesting_contract::error::ContractError;
use vesting_contract::msg::{Coin, Denom, ExecuteMsg, MigrateMsg, VestingSchedule};
use vesting_contract::state::{denom_to_key, Ledger, VestingAccount};
use vesting_contract::text::u128_to_dec;

const TKN: &str = "TKN";

fn coins(amount: u128, denom: &str) -> Vec<Coin> {
    vec![Coin { denom: denom.to_string(), amount }]
}

fn register_linear(
    ledger: &mut Ledger,
    block_time: u64,
    master: &str,
    beneficiary: &str,
    start_time: u64,
    end_time: u64,
    vesting_amount: u128,
    deposit: u128,
) -> Result<vesting_contract::contract::Response, ContractError> {
    let funds = coins(deposit, TKN);
    let msg = ExecuteMsg::RegisterVestingAccount {
        master_address: master.to_string(),
        address: beneficiary.to_string(),
        vesting_schedule: VestingSchedule::LinearVesting { start_time, end_time, vesting_amount },
    };
    execute(ledger, block_time, beneficiary.to_string(), &funds, msg)
}

#[test]
fn linear_happy_path() {
    let mut ledger = Ledger::new();
    register_linear(&mut ledger, 0, "m", "b", 100, 200, 1000, 1000).unwrap();

    // claim halfway through: one transfer of half the amount to the default
    // recipient, the account persists, the aggregate drops by what left
    let no_funds: Vec<Coin> = vec![];
    let res = claim(&mut ledger, 150, "b".to_string(), &no_funds, vec![TKN.to_string()], None)
        .unwrap();
    assert_eq!(
        res.messages,
        vec![TransferIntent { to_address: "b".to_string(), denom: TKN.to_string(), amount: 500 }]
    );
    let account = ledger.get_account(&"b".to_string(), &TKN.to_string()).unwrap();
    assert_eq!(account.claimed_amount, 500);
    assert_eq!(vested_tokens(&ledger, &TKN.to_string()), 500);

    // claim at the end: the rest transfers and the account is removed
    let res = claim(&mut ledger, 200, "b".to_string(), &no_funds, vec![TKN.to_string()], None)
        .unwrap();
    assert_eq!(
        res.messages,
        vec![TransferIntent { to_address: "b".to_string(), denom: TKN.to_string(), amount: 500 }]
    );
    assert!(ledger.get_account(&"b".to_string(), &TKN.to_string()).is_none());
    assert_eq!(vested_tokens(&ledger, &TKN.to_string()), 0);
}

#[test]
fn periodic_tranches() {
    let mut ledger = Ledger::new();
    let funds = coins(500000, TKN);
    let msg = ExecuteMsg::RegisterVestingAccount {
        master_address: "m".to_string(),
        address: "b".to_string(),
        vesting_schedule: VestingSchedule::PeriodicVesting {
            start_time: 105,
            end_time: 110,
            vesting_interval: 5,
            amount: 500000,
        },
    };
    execute(&mut ledger, 100, "b".to_string(), &funds, msg).unwrap();

    // at the start time nothing has vested: no transfer
    let no_funds: Vec<Coin> = vec![];
    let res = claim(&mut ledger, 105, "b".to_string(), &no_funds, vec![TKN.to_string()], None)
        .unwrap();
    assert_eq!(res.messages.len(), 0);

    // at the end of the single interval the whole tranche lands
    let res = claim(&mut ledger, 110, "b".to_string(), &no_funds, vec![TKN.to_string()], None)
        .unwrap();
    assert_eq!(
        res.messages,
        vec![TransferIntent {
            to_address: "b".to_string(),
            denom: TKN.to_string(),
            amount: 500000,
        }]
    );
    assert!(ledger.get_account(&"b".to_string(), &TKN.to_string()).is_none());
}

#[test]
fn periodic_deposit_mismatch_rejected() {
    let mut ledger = Ledger::new();
    let funds = coins(5000, TKN);
    let msg = ExecuteMsg::RegisterVestingAccount {
        master_address: "m".to_string(),
        address: "b".to_string(),
        vesting_schedule: VestingSchedule::PeriodicVesting {
            start_time: 1000,
            end_time: 5000,
            vesting_interval: 1000,
            amount: 1000,
        },
    };
    let err = execute(&mut ledger, 0, "b".to_string(), &funds, msg).unwrap_err();
    assert!(matches!(err, ContractError::InvalidSchedule(_)));
    assert_eq!(
        err.message(),
        "assert(deposit_amount = amount * ((end_time - start_time) / vesting_interval))"
    );
}

#[test]
fn periodic_misaligned_interval_rejected() {
    let mut ledger = Ledger::new();
    let funds = coins(1000, TKN);
    let msg = ExecuteMsg::RegisterVestingAccount {
        master_address: "m".to_string(),
        address: "b".to_string(),
        vesting_schedule: VestingSchedule::PeriodicVesting {
            start_time: 100,
            end_time: 250,
            vesting_interval: 100,
            amount: 1000,
        },
    };
    let err = execute(&mut ledger, 0, "b".to_string(), &funds, msg).unwrap_err();
    assert_eq!(
        err.message(),
        "assert((end_time - start_time) % vesting_interval == 0)"
    );
}

#[test]
fn linear_deposit_mismatch_rejected() {
    let mut ledger = Ledger::new();
    let err = register_linear(&mut ledger, 0, "m", "b", 100, 200, 1000, 900).unwrap_err();
    assert_eq!(err.message(), "assert(deposit_amount == vesting_amount)");
}

#[test]
fn deregister_mid_vest() {
    let mut ledger = Ledger::new();
    register_linear(&mut ledger, 0, "m", "b", 100, 200, 1000, 1000).unwrap();

    let no_funds: Vec<Coin> = vec![];
    let res = deregister_vesting_account(
        &mut ledger,
        150,
        "b".to_string(),
        &no_funds,
        TKN.to_string(),
        Some("b2".to_string()),
    )
    .unwrap();
    assert_eq!(
        res.messages,
        vec![
            TransferIntent { to_address: "b2".to_string(), denom: TKN.to_string(), amount: 500 },
            TransferIntent { to_address: "m".to_string(), denom: TKN.to_string(), amount: 500 },
        ]
    );
    assert!(ledger.get_account(&"b".to_string(), &TKN.to_string()).is_none());
    assert_eq!(vested_tokens(&ledger, &TKN.to_string()), 0);
}

#[test]
fn register_then_deregister_at_start_time() {
    let mut ledger = Ledger::new();
    register_linear(&mut ledger, 0, "m", "b", 100, 200, 1000, 1000).unwrap();
    assert_eq!(vested_tokens(&ledger, &TKN.to_string()), 1000);

    let no_funds: Vec<Coin> = vec![];
    let res = deregister_vesting_account(
        &mut ledger,
        100,
        "b".to_string(),
        &no_funds,
        TKN.to_string(),
        None,
    )
    .unwrap();
    // the whole deposit returns to the master address
    assert_eq!(
        res.messages,
        vec![TransferIntent { to_address: "m".to_string(), denom: TKN.to_string(), amount: 1000 }]
    );
    assert!(ledger.get_account(&"b".to_string(), &TKN.to_string()).is_none());
    // the aggregate returns to its pre-register value
    assert_eq!(vested_tokens(&ledger, &TKN.to_string()), 0);
}

#[test]
fn duplicate_register_rejected() {
    let mut ledger = Ledger::new();
    register_linear(&mut ledger, 0, "m", "b", 100, 200, 1000, 1000).unwrap();
    let err = register_linear(&mut ledger, 0, "m", "b", 100, 200, 1000, 1000).unwrap_err();
    assert!(matches!(err, ContractError::AlreadyExists));
    assert_eq!(err.message(), "already exists");
}

#[test]
fn claim_nonexistent_denom_commits_nothing() {
    let mut ledger = Ledger::new();
    register_linear(&mut ledger, 0, "m", "b", 100, 200, 1000, 1000).unwrap();

    // TKN has a claimable quantity at 150, but the claim of the unknown
    // denomination aborts the whole operation
    let no_funds: Vec<Coin> = vec![];
    let err = claim(
        &mut ledger,
        150,
        "b".to_string(),
        &no_funds,
        vec![TKN.to_string(), "XYZ".to_string()],
        None,
    )
    .unwrap_err();
    assert!(matches!(err, ContractError::NotFound { .. }));
    assert_eq!(err.message(), "vesting entry is not found for denom \"XYZ\"");

    // nothing was committed for TKN
    let account = ledger.get_account(&"b".to_string(), &TKN.to_string()).unwrap();
    assert_eq!(account.claimed_amount, 0);
    assert_eq!(vested_tokens(&ledger, &TKN.to_string()), 1000);
}

#[test]
fn claim_twice_at_same_time_is_idempotent() {
    let mut ledger = Ledger::new();
    register_linear(&mut ledger, 0, "m", "b", 100, 200, 1000, 1000).unwrap();

    let no_funds: Vec<Coin> = vec![];
    let first = claim(&mut ledger, 150, "b".to_string(), &no_funds, vec![TKN.to_string()], None)
        .unwrap();
    assert_eq!(first.messages.len(), 1);
    let snapshot_claimed = ledger
        .get_account(&"b".to_string(), &TKN.to_string())
        .unwrap()
        .claimed_amount;
    let snapshot_total = vested_tokens(&ledger, &TKN.to_string());

    let second = claim(&mut ledger, 150, "b".to_string(), &no_funds, vec![TKN.to_string()], None)
        .unwrap();
    assert_eq!(second.messages.len(), 0);
    let after_claimed = ledger
        .get_account(&"b".to_string(), &TKN.to_string())
        .unwrap()
        .claimed_amount;
    assert_eq!(after_claimed, snapshot_claimed);
    assert_eq!(vested_tokens(&ledger, &TKN.to_string()), snapshot_total);
}

#[test]
fn register_with_two_coins_rejected() {
    let mut ledger = Ledger::new();
    let funds = vec![
        Coin { denom: TKN.to_string(), amount: 500 },
        Coin { denom: "OTH".to_string(), amount: 500 },
    ];
    let msg = ExecuteMsg::RegisterVestingAccount {
        master_address: "m".to_string(),
        address: "b".to_string(),
        vesting_schedule: VestingSchedule::LinearVesting {
            start_time: 100,
            end_time: 200,
            vesting_amount: 1000,
        },
    };
    let err = execute(&mut ledger, 0, "b".to_string(), &funds, msg).unwrap_err();
    assert!(matches!(err, ContractError::InvalidFunds));
    assert_eq!(err.message(), "must deposit only one type of token");
}

#[test]
fn register_with_zero_deposit_rejected() {
    let mut ledger = Ledger::new();
    let funds = coins(0, TKN);
    let msg = ExecuteMsg::RegisterVestingAccount {
        master_address: "m".to_string(),
        address: "b".to_string(),
        vesting_schedule: VestingSchedule::LinearVesting {
            start_time: 100,
            end_time: 200,
            vesting_amount: 0,
        },
    };
    let err = execute(&mut ledger, 0, "b".to_string(), &funds, msg).unwrap_err();
    assert!(matches!(err, ContractError::ZeroDeposit));
    assert_eq!(err.message(), "assert(funds > 0)");
}

#[test]
fn claim_arithmetic_overflow_rejected() {
    let mut ledger = Ledger::new();
    let funds = coins(u128::MAX, TKN);
    let msg = ExecuteMsg::RegisterVestingAccount {
        master_address: "m".to_string(),
        address: "b".to_string(),
        vesting_schedule: VestingSchedule::LinearVesting {
            start_time: 100,
            end_time: 200,
            vesting_amount: u128::MAX,
        },
    };
    execute(&mut ledger, 0, "b".to_string(), &funds, msg).unwrap();

    // evaluating mid-schedule needs u128::MAX * 50, which overflows
    let no_funds: Vec<Coin> = vec![];
    let err = claim(&mut ledger, 150, "b".to_string(), &no_funds, vec![TKN.to_string()], None)
        .unwrap_err();
    assert!(matches!(err, ContractError::ArithmeticError));
    // the failed claim committed nothing
    let account = ledger.get_account(&"b".to_string(), &TKN.to_string()).unwrap();
    assert_eq!(account.claimed_amount, 0);
}

#[test]
fn claim_before_previous_claim_time_rejected() {
    let mut ledger = Ledger::new();
    register_linear(&mut ledger, 0, "m", "b", 100, 200, 1000, 1000).unwrap();

    let no_funds: Vec<Coin> = vec![];
    claim(&mut ledger, 150, "b".to_string(), &no_funds, vec![TKN.to_string()], None).unwrap();

    // at an earlier block time the vested quantity lies below the claimed
    // one; the checked subtraction fails the operation
    let err = claim(&mut ledger, 120, "b".to_string(), &no_funds, vec![TKN.to_string()], None)
        .unwrap_err();
    assert!(matches!(err, ContractError::ArithmeticError));
    let account = ledger.get_account(&"b".to_string(), &TKN.to_string()).unwrap();
    assert_eq!(account.claimed_amount, 500);
}

#[test]
fn register_overflowing_denom_total_rejected() {
    let mut ledger = Ledger::new();
    register_linear(&mut ledger, 0, "m", "b", 100, 200, u128::MAX, u128::MAX).unwrap();

    // a second deposit of the same denomination would overflow the aggregate
    let funds = coins(1000, TKN);
    let msg = ExecuteMsg::RegisterVestingAccount {
        master_address: "m".to_string(),
        address: "b2".to_string(),
        vesting_schedule: VestingSchedule::LinearVesting {
            start_time: 100,
            end_time: 200,
            vesting_amount: 1000,
        },
    };
    let err = execute(&mut ledger, 0, "b2".to_string(), &funds, msg).unwrap_err();
    assert!(matches!(err, ContractError::ArithmeticError));
    assert_eq!(err.message(), "checked arithmetic failed");
}

#[test]
fn claim_with_missing_aggregate_is_inconsistent() {
    // a state assembled by hand, without the aggregate entry the engine
    // would have written: the engine reports it rather than inventing one
    let mut ledger = Ledger {
        accounts: vec![VestingAccount {
            master_address: "m".to_string(),
            address: "b".to_string(),
            vesting_denom: TKN.to_string(),
            vesting_amount: 1000,
            vesting_schedule: VestingSchedule::LinearVesting {
                start_time: 100,
                end_time: 200,
                vesting_amount: 1000,
            },
            claimed_amount: 0,
        }],
        totals: vec![],
    };
    let no_funds: Vec<Coin> = vec![];
    let err = claim(&mut ledger, 150, "b".to_string(), &no_funds, vec![TKN.to_string()], None)
        .unwrap_err();
    assert!(matches!(err, ContractError::InconsistentState));
}

#[test]
fn query_pagination_and_cursor() {
    let mut ledger = Ledger::new();
    for denom in ["AAA", "BBB", "CCC"] {
        let funds = coins(1000, denom);
        let msg = ExecuteMsg::RegisterVestingAccount {
            master_address: "m".to_string(),
            address: "b".to_string(),
            vesting_schedule: VestingSchedule::LinearVesting {
                start_time: 100,
                end_time: 200,
                vesting_amount: 1000,
            },
        };
        execute(&mut ledger, 0, "b".to_string(), &funds, msg).unwrap();
    }

    // ascending by tagged denomination key
    let all = vesting_account(&ledger, 50, "b".to_string(), None, None).unwrap();
    let denoms: Vec<String> = all.vestings.iter().map(|v| v.vesting_denom.clone()).collect();
    assert_eq!(denoms, vec!["AAA", "BBB", "CCC"]);

    // the limit truncates the listing
    let limited = vesting_account(&ledger, 50, "b".to_string(), None, Some(2)).unwrap();
    assert_eq!(limited.vestings.len(), 2);
    assert_eq!(limited.vestings[0].vesting_denom, "AAA");
    assert_eq!(limited.vestings[1].vesting_denom, "BBB");

    // the cursor is exclusive
    let after = vesting_account(
        &ledger,
        50,
        "b".to_string(),
        Some(Denom::Native("AAA".to_string())),
        None,
    )
    .unwrap();
    let denoms: Vec<String> = after.vestings.iter().map(|v| v.vesting_denom.clone()).collect();
    assert_eq!(denoms, vec!["BBB", "CCC"]);
}

#[test]
fn query_limit_defaults_to_ten_and_caps_at_thirty() {
    let mut ledger = Ledger::new();
    for i in 0..35u32 {
        let denom = format!("D{:02}", i);
        let funds = coins(1000, &denom);
        let msg = ExecuteMsg::RegisterVestingAccount {
            master_address: "m".to_string(),
            address: "b".to_string(),
            vesting_schedule: VestingSchedule::LinearVesting {
                start_time: 100,
                end_time: 200,
                vesting_amount: 1000,
            },
        };
        execute(&mut ledger, 0, "b".to_string(), &funds, msg).unwrap();
    }

    let default_page = vesting_account(&ledger, 50, "b".to_string(), None, None).unwrap();
    assert_eq!(default_page.vestings.len(), 10);
    assert_eq!(default_page.vestings[0].vesting_denom, "D00");

    let capped = vesting_account(&ledger, 50, "b".to_string(), None, Some(31)).unwrap();
    assert_eq!(capped.vestings.len(), 30);
    assert_eq!(capped.vestings[29].vesting_denom, "D29");

    let small = vesting_account(&ledger, 50, "b".to_string(), None, Some(5)).unwrap();
    assert_eq!(small.vestings.len(), 5);
}

#[test]
fn vested_tokens_of_unknown_denom_is_zero() {
    let ledger = Ledger::new();
    assert_eq!(vested_tokens(&ledger, &"XYZ".to_string()), 0);
}

#[test]
fn migrate_version_gate() {
    let ok = migrate(
        &"crates.io:vesting_contract".to_string(),
        &"0.1.0".to_string(),
        MigrateMsg {},
    )
    .unwrap();
    assert_eq!(ok.messages.len(), 0);
    assert_eq!(ok.attributes.len(), 0);

    migrate(
        &"crates.io:vesting_contract".to_string(),
        &"0.0.1".to_string(),
        MigrateMsg {},
    )
    .unwrap();

    let err = migrate(&"crates.io:other".to_string(), &"0.1.0".to_string(), MigrateMsg {})
        .unwrap_err();
    assert_eq!(err.message(), "Can only upgrade from same type");

    let err = migrate(
        &"crates.io:vesting_contract".to_string(),
        &"0.2.0".to_string(),
        MigrateMsg {},
    )
    .unwrap_err();
    assert_eq!(err.message(), "Cannot upgrade from a newer version");
}

#[test]
fn denom_to_key_tagged_forms() {
    assert_eq!(denom_to_key(Denom::Native("ukrw".to_string())), "native-ukrw");
    assert_eq!(denom_to_key(Denom::Cw20("token0001".to_string())), "cw20-token0001");
}

#[test]
fn decimal_rendering_is_exact() {
    assert_eq!(u128_to_dec(0), "0");
    assert_eq!(u128_to_dec(7), "7");
    assert_eq!(u128_to_dec(12345), "12345");
    assert_eq!(u128_to_dec(u128::MAX), "340282366920938463463374607431768211455");
}
