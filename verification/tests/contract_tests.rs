use vesting_contract::contract::{
    claim, deregister_vesting_account, execute, instantiate, query, vested_tokens,
    vesting_account, Attribute, Response,
};
use vesting_contract::msg::{
    Coin, Denom, ExecuteMsg, InstantiateMsg, QueryMsg, QueryResponse, VestingAccountResponse,
    VestingData, VestingSchedule,
};
use vesting_contract::state::Ledger;

const DENOM: &str = "TKN";

/// The block time a fresh mock host reports, in seconds.
const MOCK_TIME: u64 = 1_571_797_419;

fn coins(amount: u128, denom: &str) -> Vec<Coin> {
    vec![Coin { denom: denom.to_string(), amount }]
}

fn attr(key: &str, value: &str) -> Attribute {
    Attribute { key: key.to_string(), value: value.to_string() }
}

#[test]
fn proper_initialization() {
    let res = instantiate(InstantiateMsg {}).unwrap();
    assert_eq!(res.messages.len(), 0);
    assert_eq!(res.attributes.len(), 0);
}

#[test]
fn register_vesting_account_linear_invalid_request() {
    let mut block_time = MOCK_TIME;
    let mut ledger = Ledger::new();

    let vesting_amount: u128 = 1000;
    let address = "user1";
    let vesting_schedule = VestingSchedule::LinearVesting {
        start_time: 5000,
        end_time: 6000,
        vesting_amount,
    };

    let msg = ExecuteMsg::RegisterVestingAccount {
        master_address: String::new(),
        address: address.to_string(),
        vesting_schedule,
    };

    let funds = coins(vesting_amount, DENOM);

    // * FAIL for empty master address
    let res = execute(&mut ledger, block_time, address.to_string(), &funds, msg).unwrap_err();
    assert_eq!(res.message(), "Invalid input: human address too short");

    // * FAIL for start_time < block_time
    let vesting_schedule = VestingSchedule::LinearVesting {
        start_time: 5000,
        end_time: 6000,
        vesting_amount,
    };
    let msg = ExecuteMsg::RegisterVestingAccount {
        master_address: String::from("master"),
        address: address.to_string(),
        vesting_schedule,
    };

    block_time = 6000;

    let result = execute(&mut ledger, block_time, address.to_string(), &funds, msg).unwrap_err();
    assert_eq!(result.message(), "assert(start_time < block_time)");

    // * FAIL for start_time == end_time
    let vesting_schedule = VestingSchedule::LinearVesting {
        start_time: 6000,
        end_time: 6000,
        vesting_amount,
    };
    let msg = ExecuteMsg::RegisterVestingAccount {
        master_address: String::from("master"),
        address: address.to_string(),
        vesting_schedule,
    };

    let result = execute(&mut ledger, block_time, address.to_string(), &funds, msg).unwrap_err();
    assert_eq!(result.message(), "assert(end_time <= start_time)");

    // * FAIL for empty `address` field.
    let vesting_schedule = VestingSchedule::LinearVesting {
        start_time: 6000,
        end_time: 8000,
        vesting_amount,
    };
    let msg = ExecuteMsg::RegisterVestingAccount {
        master_address: String::from("master"),
        address: String::new(),
        vesting_schedule,
    };

    execute(&mut ledger, block_time, address.to_string(), &funds, msg).unwrap_err();
}

#[test]
fn register_vesting_account_periodic_invalid_request() {
    let block_time: u64 = 200;
    let mut ledger = Ledger::new();

    let vesting_amount: u128 = 1000;
    let address = "user1";
    let vesting_schedule = VestingSchedule::PeriodicVesting {
        start_time: 1000,
        end_time: 5000,
        vesting_interval: 1000,
        amount: vesting_amount,
    };

    // * FAIL for sending excess amount
    let deposit_amount = 4000 / 1000 * vesting_amount + 1000;
    let funds = coins(deposit_amount, DENOM);
    let msg = ExecuteMsg::RegisterVestingAccount {
        master_address: "master".to_string(),
        address: address.to_string(),
        vesting_schedule: vesting_schedule.clone(),
    };
    let result = execute(&mut ledger, block_time, address.to_string(), &funds, msg).unwrap_err();
    assert_eq!(
        result.message(),
        "assert(deposit_amount = amount * ((end_time - start_time) / vesting_interval))"
    );
}

#[test]
fn register_vesting_account_periodic_valid_request() {
    let block_time: u64 = 200;
    let mut ledger = Ledger::new();

    let vesting_amount: u128 = 1000;
    let address = "user1";
    let vesting_schedule = VestingSchedule::PeriodicVesting {
        start_time: 1000,
        end_time: 5000,
        vesting_interval: 1000,
        amount: vesting_amount,
    };

    // PASS
    let deposit_amount = 4000 / 1000 * vesting_amount;
    let funds = coins(deposit_amount, "TKN");
    let msg = ExecuteMsg::RegisterVestingAccount {
        master_address: String::from("master"),
        address: address.to_string(),
        vesting_schedule: vesting_schedule.clone(),
    };
    let result = execute(&mut ledger, block_time, "user1".to_string(), &funds, msg).unwrap();
    assert_eq!(result.messages.len(), 0);

    // Check correct update of the stored accounts
    let account = ledger
        .get_account(&address.to_string(), &DENOM.to_string())
        .unwrap();
    assert_eq!(account.address, address.to_string());
    assert_eq!(account.master_address, "master".to_string());
    assert_eq!(account.vesting_amount, deposit_amount);
    assert_eq!(account.claimed_amount, 0);
    assert_eq!(account.vesting_denom, DENOM.to_string());
    assert_eq!(account.vesting_schedule, vesting_schedule);

    // Check correct update of the per-denom aggregate
    let denom_vested = vested_tokens(&ledger, &DENOM.to_string());
    assert_eq!(denom_vested, deposit_amount);
}

#[test]
fn register_vesting_account_linear_valid_request() {
    let block_time: u64 = 1000;
    let mut ledger = Ledger::new();

    let vesting_amount: u128 = 100;
    let address = "user1";
    let vesting_schedule = VestingSchedule::LinearVesting {
        start_time: 1200,
        end_time: 1500,
        vesting_amount,
    };

    // PASS
    let funds = coins(vesting_amount, DENOM);
    let msg = ExecuteMsg::RegisterVestingAccount {
        master_address: "master".to_string(),
        address: address.to_string(),
        vesting_schedule: vesting_schedule.clone(),
    };

    let res = execute(&mut ledger, block_time, address.to_string(), &funds, msg).unwrap();
    assert_eq!(res.messages.len(), 0);

    // Check correct update of the stored accounts
    let account = ledger
        .get_account(&address.to_string(), &DENOM.to_string())
        .unwrap();
    assert_eq!(account.address, address.to_string());
    assert_eq!(account.claimed_amount, 0);
    assert_eq!(account.master_address, "master".to_string());
    assert_eq!(account.vesting_amount, vesting_amount);
    assert_eq!(account.vesting_denom, DENOM.to_string());
    assert_eq!(account.vesting_schedule, vesting_schedule);

    // Check correct update of the per-denom aggregate
    let denom_vested = vested_tokens(&ledger, &DENOM.to_string());
    assert_eq!(denom_vested, vesting_amount);

    // Should return Response
    assert_eq!(
        res,
        Response {
            messages: vec![],
            attributes: vec![
                attr("action", "register_vesting_account"),
                attr("master_address", "master"),
                attr("address", address),
                attr("vesting_denom", "\"TKN\""),
                attr("vesting_amount", "100"),
            ],
        }
    );
}

fn create_vesting_account(
    ledger: &mut Ledger,
    block_time: u64,
    sender: &str,
    funds: &Vec<Coin>,
    start_time: Option<u64>,
    end_time: Option<u64>,
    vesting_amount: Option<u128>,
) {
    let start_time = start_time.unwrap_or(1000);
    let end_time = end_time.unwrap_or(1500);
    let vesting_amount = vesting_amount.unwrap_or(1000);
    let vesting_schedule = VestingSchedule::LinearVesting {
        start_time,
        end_time,
        vesting_amount,
    };
    let msg = ExecuteMsg::RegisterVestingAccount {
        master_address: "master".to_string(),
        address: sender.to_string(),
        vesting_schedule,
    };
    execute(ledger, block_time, sender.to_string(), funds, msg).unwrap();
}

#[test]
fn deregister_vesting_account_invalid_request() {
    let mut block_time: u64 = 1000;
    let mut ledger = Ledger::new();

    let address = "user1";

    // * FAIL: no vesting account present
    let no_funds: Vec<Coin> = vec![];
    let result = deregister_vesting_account(
        &mut ledger,
        block_time,
        address.to_string(),
        &no_funds,
        DENOM.to_string(),
        None,
    )
    .unwrap_err();
    assert!(result.message().starts_with("vesting entry is not found for denom"));

    // * FAIL: Invalid recipient address
    let recipient = String::from("");

    // Create a new vesting account for user1
    let funds = coins(1000, DENOM);
    create_vesting_account(&mut ledger, block_time, address, &funds, None, None, None);

    assert!(ledger
        .get_account(&address.to_string(), &DENOM.to_string())
        .is_some());
    assert!(ledger
        .get_account(&recipient, &DENOM.to_string())
        .is_none());

    // Forward the time to 2000, so that all the tokens have vested.
    block_time = 2000;

    // Deregister the vesting account for user1
    let result = deregister_vesting_account(
        &mut ledger,
        block_time,
        address.to_string(),
        &no_funds,
        DENOM.to_string(),
        Some(recipient),
    )
    .unwrap_err();
    assert_eq!(result.message(), "Invalid input: human address too short");

    // * FAIL: funds not allowed.
    let with_funds = coins(10, DENOM);
    let result = deregister_vesting_account(
        &mut ledger,
        block_time,
        "sender".to_string(),
        &with_funds,
        DENOM.to_string(),
        Some(String::from("")),
    )
    .unwrap_err();
    assert_eq!(result.message(), "Funds not allowed.");
}

#[test]
fn claim_invalid_request() {
    let block_time: u64 = 1000;
    let mut ledger = Ledger::new();

    let address = "user1";

    // * FAIL: incorrect denoms being claimed
    let funds = coins(1000, DENOM);
    create_vesting_account(&mut ledger, block_time, address, &funds, None, None, None);

    let no_funds: Vec<Coin> = vec![];
    let result = claim(
        &mut ledger,
        block_time,
        address.to_string(),
        &no_funds,
        vec!["DNM".to_string()],
        None,
    )
    .unwrap_err();
    assert_eq!(result.message(), "vesting entry is not found for denom \"DNM\"");

    // Nothing vested yet: the claim succeeds but transfers nothing
    let result = claim(
        &mut ledger,
        block_time,
        address.to_string(),
        &no_funds,
        vec![DENOM.to_string()],
        None,
    )
    .unwrap();
    assert_eq!(result.messages.len(), 0);

    // FAIL: Funds not allowed
    let with_funds = coins(10, DENOM);
    let result = claim(
        &mut ledger,
        block_time,
        address.to_string(),
        &with_funds,
        vec![DENOM.to_string()],
        None,
    )
    .unwrap_err();
    assert_eq!(result.message(), "Funds not allowed.");
}

// Test case for claim
#[test]
fn testing_claim() {
    let block_time = MOCK_TIME;
    let mut ledger = Ledger::new();
    let funds = coins(100, DENOM);
    let amount: u128 = 100;
    // registering Message
    let msg = ExecuteMsg::RegisterVestingAccount {
        master_address: "sender".to_string(),
        address: "sender".to_string(),
        vesting_schedule: VestingSchedule::LinearVesting {
            start_time: 1662824814,
            end_time: 1662824914,
            vesting_amount: amount,
        },
    };
    // Registering the account
    let _res = execute(&mut ledger, block_time, "sender".to_string(), &funds, msg);
    let deposit_denom = DENOM.to_string();

    let no_funds: Vec<Coin> = vec![];
    let res = claim(
        &mut ledger,
        block_time,
        "sender".to_string(),
        &no_funds,
        vec![deposit_denom],
        Some("recipent".to_string()),
    );

    // Should return Response
    assert_eq!(
        res,
        Ok(Response {
            messages: vec![],
            attributes: vec![attr("action", "claim"), attr("address", "sender")],
        })
    );
}

#[test]
fn vesting_account_query() {
    let block_time: u64 = 1000;
    let mut ledger = Ledger::new();

    const DENOM2: &str = "TKN2";
    let address = "user1";
    let vesting_amount: u128 = 1000;

    // A simple testcase for the vesting_account fn.

    let funds = coins(vesting_amount, DENOM);
    create_vesting_account(
        &mut ledger,
        block_time,
        address,
        &funds,
        None,
        None,
        Some(vesting_amount),
    );

    let vesting_schedule = VestingSchedule::LinearVesting {
        start_time: 1000,
        end_time: 1500,
        vesting_amount,
    };
    let result = vesting_account(&ledger, block_time, address.to_string(), None, None).unwrap();
    assert_eq!(result.address, address.to_string());
    assert_eq!(
        result.vestings[0],
        VestingData {
            master_address: "master".to_string(),
            vesting_denom: DENOM.to_string(),
            vesting_amount,
            vested_amount: 0,
            vesting_schedule: vesting_schedule.clone(),
            claimable_amount: 0,
        }
    );

    let funds2 = coins(vesting_amount, DENOM2);
    create_vesting_account(
        &mut ledger,
        block_time,
        address,
        &funds2,
        None,
        None,
        Some(vesting_amount),
    );

    let result = vesting_account(&ledger, block_time, address.to_string(), None, None).unwrap();
    assert_eq!(result.vestings.len(), 2);
    assert_eq!(
        result.vestings[1],
        VestingData {
            master_address: "master".to_string(),
            vesting_amount,
            vesting_denom: DENOM2.to_string(),
            vesting_schedule,
            vested_amount: 0,
            claimable_amount: 0,
        }
    );
}

// testcase for Query to get vesting account
#[test]
fn testing_vesting_account() {
    let block_time = MOCK_TIME;
    let mut ledger = Ledger::new();
    let funds = coins(100, DENOM);
    let amount: u128 = 100;
    let msg = ExecuteMsg::RegisterVestingAccount {
        master_address: "sender".to_string(),
        address: "sender".to_string(),
        vesting_schedule: VestingSchedule::LinearVesting {
            start_time: 1662824814,
            end_time: 1662824914,
            vesting_amount: amount,
        },
    };
    // Registering the Account
    let _res = execute(&mut ledger, block_time, "sender".to_string(), &funds, msg);
    let deposit_denom = Denom::Native(DENOM.to_string());
    // Query Message
    let querymsg = QueryMsg::VestingAccount {
        address: "sender".to_string(),
        start_after: Some(deposit_denom.clone()),
        limit: Some(0),
    };
    // running Query function
    let res = query(&ledger, block_time, querymsg).unwrap();
    // Should return VestingAccountResponse.
    assert_eq!(
        res,
        QueryResponse::VestingAccount(VestingAccountResponse {
            address: "sender".to_string(),
            vestings: vec![],
        })
    );
    let res2 = vesting_account(
        &ledger,
        block_time,
        "sender".to_string(),
        Some(deposit_denom),
        Some(0),
    )
    .unwrap();
    assert_eq!(
        res2,
        VestingAccountResponse { address: "sender".to_string(), vestings: vec![] }
    );
}

// test case for query to get vesting Tokens.
#[test]
fn testing_vesting_tokens() {
    let block_time = MOCK_TIME;
    let mut ledger = Ledger::new();
    let funds = coins(100, DENOM);
    let amount: u128 = 100;
    // register Message
    let msg = ExecuteMsg::RegisterVestingAccount {
        master_address: "sender".to_string(),
        address: "sender".to_string(),
        vesting_schedule: VestingSchedule::LinearVesting {
            start_time: 1662824814,
            end_time: 1662824914,
            vesting_amount: amount,
        },
    };

    // Registering Accounts.
    let _res = execute(&mut ledger, block_time, "sender".to_string(), &funds, msg);

    // Running VestedTokens Query
    let res = vested_tokens(&ledger, &DENOM.to_string());
    assert_eq!(res, amount);
    let res2 = query(
        &ledger,
        block_time,
        QueryMsg::VestedTokens { denom: DENOM.to_string() },
    )
    .unwrap();
    assert_eq!(res2, QueryResponse::VestedTokens(amount));
}
