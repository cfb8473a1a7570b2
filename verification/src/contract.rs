//! The account lifecycle manager, the query surface and the message
//! dispatcher: the three mutating operations over the ledger, the read-only
//! queries, and the version gate for migration.

use vstd::prelude::*;
use vstd::string::*;

use crate::error::ContractError;
use crate::error::ErrorV;
use crate::error::ScheduleViolation;
use crate::msg::Coin;
use crate::msg::CoinV;
use crate::msg::Denom;
use crate::msg::DenomV;
use crate::msg::ExecuteMsg;
use crate::msg::InstantiateMsg;
use crate::msg::MigrateMsg;
use crate::msg::QueryMsg;
use crate::msg::QueryResponse;
use crate::msg::QueryResponseV;
use crate::msg::VestingAccountResponse;
use crate::msg::VestingAccountResponseV;
use crate::msg::VestingData;
use crate::msg::VestingDataV;
use crate::msg::VestingSchedule;
use crate::msg::spec_schedule_total;
use crate::msg::spec_schedule_valid;
use crate::state::AccountV;
use crate::state::Ledger;
use crate::state::LedgerV;
use crate::state::TotalV;
use crate::state::VestingAccount;
use crate::state::acct_matches;
use crate::state::account_ok;
use crate::state::lemma_sum_push;
use crate::state::lemma_sum_zero_when_absent;
use crate::state::outstanding_of;
use crate::state::spec_outstanding_sum;
use crate::text::dec_of;
use crate::text::json_string;
use crate::text::json_string_of;
use crate::text::lex_lt;
use crate::text::u128_to_dec;

verus! {

/// The contract's name, as the version gate records it.
pub const CONTRACT_NAME: &'static str = "crates.io:vesting_contract";

/// The contract's version, as the version gate records it.
pub const CONTRACT_VERSION: &'static str = "0.1.0";

/// An outbound token-transfer intent; the host executes it atomically with
/// the state commit.
#[derive(Clone, Debug, PartialEq, Eq)]
pub struct TransferIntent {
    pub to_address: String,
    pub denom: String,
    pub amount: u128,
}

/// The spec-level value of a transfer intent.
#[verifier::ext_equal]
pub ghost struct TransferIntentV {
    pub to_address: Seq<char>,
    pub denom: Seq<char>,
    pub amount: int,
}

impl View for TransferIntent {
    type V = TransferIntentV;

    open spec fn view(&self) -> TransferIntentV {
        TransferIntentV {
            to_address: self.to_address@,
            denom: self.denom@,
            amount: self.amount as int,
        }
    }
}

/// One observability attribute: a key/value pair of strings.
#[derive(Clone, Debug, PartialEq, Eq)]
pub struct Attribute {
    pub key: String,
    pub value: String,
}

/// The spec-level value of an attribute.
#[verifier::ext_equal]
pub ghost struct AttributeV {
    pub key: Seq<char>,
    pub value: Seq<char>,
}

impl View for Attribute {
    type V = AttributeV;

    open spec fn view(&self) -> AttributeV {
        AttributeV { key: self.key@, value: self.value@ }
    }
}

/// What a successful operation returns: the transfer intents to execute and
/// the attributes to emit, in order.
#[derive(Clone, Debug, PartialEq, Eq)]
pub struct Response {
    pub messages: Vec<TransferIntent>,
    pub attributes: Vec<Attribute>,
}

/// The spec-level value of a response.
#[verifier::ext_equal]
pub ghost struct ResponseV {
    pub messages: Seq<TransferIntentV>,
    pub attributes: Seq<AttributeV>,
}

/// The spec-level values of a list of transfer intents.
pub open spec fn intents_view(v: Seq<TransferIntent>) -> Seq<TransferIntentV> {
    Seq::new(v.len(), |i: int| v[i]@)
}

/// The spec-level values of a list of attributes.
pub open spec fn attrs_view(v: Seq<Attribute>) -> Seq<AttributeV> {
    Seq::new(v.len(), |i: int| v[i]@)
}

impl View for Response {
    type V = ResponseV;

    open spec fn view(&self) -> ResponseV {
        ResponseV {
            messages: intents_view(self.messages@),
            attributes: attrs_view(self.attributes@),
        }
    }
}

/// An attribute at the spec level.
pub open spec fn spec_attr(key: Seq<char>, value: Seq<char>) -> AttributeV {
    AttributeV { key, value }
}

/// The spec-level values of attached coins.
pub open spec fn coins_view(funds: Seq<Coin>) -> Seq<CoinV> {
    Seq::new(funds.len(), |i: int| funds[i]@)
}

/// The spec-level value of an optional string.
pub open spec fn opt_str_view(o: Option<String>) -> Option<Seq<char>> {
    match o {
        Option::Some(s) => Option::Some(s@),
        Option::None => Option::None,
    }
}

/// The spec-level values of a list of denominations.
pub open spec fn strings_view(v: Seq<String>) -> Seq<Seq<char>> {
    Seq::new(v.len(), |i: int| v[i]@)
}

/// Whether the host accepts an address. Address syntax is the host's
/// business; the engine models its check as: an address is valid when it is
/// not empty.
pub open spec fn spec_addr_valid(a: Seq<char>) -> bool {
    a.len() > 0
}

/// Validates an address as the host would.
pub fn addr_validate(a: &String) -> (r: Result<(), ContractError>)
    ensures
        r is Ok <==> spec_addr_valid(a@),
        r is Err ==> r == Err::<(), ContractError>(ContractError::InvalidAddress),
{
    if a.as_str().is_empty() {
        Err(ContractError::InvalidAddress)
    } else {
        Ok(())
    }
}

/// Builds an attribute from a literal key and an owned value.
fn mk_attr(key: &str, value: String) -> (r: Attribute)
    ensures
        r@ == spec_attr(key@, value@),
{
    Attribute { key: String::from_str(key), value }
}

/// Instantiation writes the version gate's pair and nothing else; the
/// response is empty.
pub fn instantiate(_msg: InstantiateMsg) -> (r: Result<Response, ContractError>)
    ensures
        r matches Ok(resp) && resp@.messages.len() == 0 && resp@.attributes.len() == 0,
{
    Ok(Response { messages: Vec::new(), attributes: Vec::new() })
}

/// The migration gate: what migrating from a stored `(name, version)` pair
/// yields. The stored name must equal the contract's, and the stored
/// version must not exceed the current one in lexicographic order.
pub open spec fn spec_migrate(stored_name: Seq<char>, stored_version: Seq<char>) -> Result<
    ResponseV,
    ErrorV,
> {
    if stored_name != CONTRACT_NAME@ {
        Err(ErrorV::MigrationContractMismatch)
    } else if crate::text::lex_lt(CONTRACT_VERSION@, stored_version) {
        Err(ErrorV::MigrationVersionTooNew)
    } else {
        Ok(ResponseV { messages: Seq::empty(), attributes: Seq::empty() })
    }
}

/// Checks the version gate against the stored pair; on success the caller
/// persists the current pair anew.
pub fn migrate(stored_name: &String, stored_version: &String, _msg: MigrateMsg) -> (r: Result<
    Response,
    ContractError,
>)
    ensures
        match r {
            Ok(resp) => spec_migrate(stored_name@, stored_version@) == Ok::<ResponseV, ErrorV>(
                resp@,
            ),
            Err(e) => spec_migrate(stored_name@, stored_version@) == Err::<ResponseV, ErrorV>(e@),
        },
{
    let name = String::from_str(CONTRACT_NAME);
    let version = String::from_str(CONTRACT_VERSION);
    if !(*stored_name == name) {
        return Err(ContractError::MigrationContractMismatch);
    }
    if crate::text::str_lex_lt(&version, stored_version) {
        return Err(ContractError::MigrationVersionTooNew);
    }
    let resp = Response { messages: Vec::new(), attributes: Vec::new() };
    proof {
        assert(resp@.messages =~= Seq::<TransferIntentV>::empty());
        assert(resp@.attributes =~= Seq::<AttributeV>::empty());
    }
    Ok(resp)
}

/// The per-denom aggregate: what the ledger records for the denomination,
/// zero when it has no entry.
pub fn vested_tokens(ledger: &Ledger, denom: &String) -> (r: u128)
    requires
        ledger@.wf(),
    ensures
        r as int == ledger@.total_or_zero(denom@),
{
    match ledger.find_total(denom) {
        Some(i) => {
            let amount = ledger.totals[i].amount;
            proof {
                assert(ledger@.has_total(denom@));
                let w = ledger@.total_index(denom@);
                assert(0 <= w < ledger@.totals.len() && ledger@.totals[w].denom == denom@);
                assert(w == i as int);
            }
            amount
        },
        None => 0,
    }
}

/// Which schedule precondition a registration breaks, if any: the checks in
/// the order the engine applies them, with the deposit compared to the
/// schedule's total.
pub open spec fn spec_validate_schedule(
    schedule: VestingSchedule,
    block_time: u64,
    deposit_amount: int,
) -> Option<ErrorV> {
    match schedule {
        VestingSchedule::LinearVesting { start_time, end_time, vesting_amount } => {
            if vesting_amount as int != deposit_amount {
                Some(ErrorV::InvalidSchedule(ScheduleViolation::LinearDepositMismatch))
            } else if start_time < block_time {
                Some(ErrorV::InvalidSchedule(ScheduleViolation::LinearStartBeforeBlockTime))
            } else if end_time <= start_time {
                Some(ErrorV::InvalidSchedule(ScheduleViolation::LinearEndNotAfterStart))
            } else {
                None
            }
        },
        VestingSchedule::PeriodicVesting { start_time, end_time, vesting_interval, amount } => {
            if amount == 0 {
                Some(ErrorV::InvalidSchedule(ScheduleViolation::PeriodicZeroAmount))
            } else if start_time < block_time {
                Some(ErrorV::InvalidSchedule(ScheduleViolation::PeriodicStartBeforeBlockTime))
            } else if end_time <= start_time {
                Some(ErrorV::InvalidSchedule(ScheduleViolation::PeriodicEndNotAfterStart))
            } else if vesting_interval == 0 {
                Some(ErrorV::InvalidSchedule(ScheduleViolation::PeriodicZeroInterval))
            } else if ((end_time - start_time) as int) % (vesting_interval as int) != 0 {
                Some(ErrorV::InvalidSchedule(ScheduleViolation::PeriodicIntervalMisaligned))
            } else if (amount as int) * (((end_time - start_time) as int) / (vesting_interval
                as int)) > u128::MAX as int {
                Some(ErrorV::ArithmeticError)
            } else if (amount as int) * (((end_time - start_time) as int) / (vesting_interval
                as int)) != deposit_amount {
                Some(ErrorV::InvalidSchedule(ScheduleViolation::PeriodicDepositMismatch))
            } else {
                None
            }
        },
    }
}

/// What registering does: after validating the addresses, the absence of
/// the key, and the schedule against the deposit, it appends the account
/// with nothing claimed, adds the deposit to the denomination's aggregate,
/// and emits the registration attributes and no transfers.
pub open spec fn spec_register(
    lv: LedgerV,
    block_time: u64,
    master_address: Seq<char>,
    address: Seq<char>,
    deposit_denom: Seq<char>,
    deposit_amount: int,
    schedule: VestingSchedule,
) -> Result<(LedgerV, ResponseV), ErrorV> {
    if !spec_addr_valid(master_address) {
        Err(ErrorV::InvalidAddress)
    } else if !spec_addr_valid(address) {
        Err(ErrorV::InvalidAddress)
    } else if lv.has_account(address, deposit_denom) {
        Err(ErrorV::AlreadyExists)
    } else {
        match spec_validate_schedule(schedule, block_time, deposit_amount) {
            Some(e) => Err(e),
            None => {
                let t0 = lv.total_or_zero(deposit_denom);
                if t0 + deposit_amount > u128::MAX as int {
                    Err(ErrorV::ArithmeticError)
                } else {
                    let acct = AccountV {
                        master_address,
                        address,
                        vesting_denom: deposit_denom,
                        vesting_amount: deposit_amount,
                        vesting_schedule: schedule,
                        claimed_amount: 0,
                    };
                    let entry = TotalV { denom: deposit_denom, amount: t0 + deposit_amount };
                    let totals2 = if lv.has_total(deposit_denom) {
                        lv.totals.update(lv.total_index(deposit_denom), entry)
                    } else {
                        lv.totals.push(entry)
                    };
                    Ok(
                        (
                            LedgerV { accounts: lv.accounts.push(acct), totals: totals2 },
                            ResponseV {
                                messages: Seq::empty(),
                                attributes: seq![
                                    spec_attr("action"@, "register_vesting_account"@),
                                    spec_attr("master_address"@, master_address),
                                    spec_attr("address"@, address),
                                    spec_attr("vesting_denom"@, json_string_of(deposit_denom)),
                                    spec_attr("vesting_amount"@, dec_of(deposit_amount)),
                                ],
                            },
                        ),
                    )
                }
            },
        }
    }
}

/// Creates the vesting account that locks the attached deposit under the
/// schedule; the dispatcher has already reduced the attached funds to one
/// positive deposit.
pub fn register_vesting_account(
    ledger: &mut Ledger,
    block_time: u64,
    master_address: String,
    address: String,
    deposit_denom: String,
    deposit_amount: u128,
    vesting_schedule: VestingSchedule,
) -> (r: Result<Response, ContractError>)
    requires
        old(ledger)@.wf(),
        deposit_amount >= 1,
    ensures
        ({
            let s = spec_register(
                old(ledger)@,
                block_time,
                master_address@,
                address@,
                deposit_denom@,
                deposit_amount as int,
                vesting_schedule,
            );
            match r {
                Ok(resp) => s == Ok::<(LedgerV, ResponseV), ErrorV>((final(ledger)@, resp@))
                    && final(ledger)@.wf(),
                Err(e) => s == Err::<(LedgerV, ResponseV), ErrorV>(e@) && final(ledger)@ == old(
                    ledger,
                )@,
            }
        }),
{
    if let Err(e) = addr_validate(&master_address) {
        return Err(e);
    }
    if let Err(e) = addr_validate(&address) {
        return Err(e);
    }
    match ledger.find_account(&address, &deposit_denom) {
        Some(found) => {
            proof {
                assert(acct_matches(ledger@.accounts[found as int], address@, deposit_denom@));
            }
            return Err(ContractError::AlreadyExists);
        },
        None => {},
    }
    match vesting_schedule {
        VestingSchedule::LinearVesting { start_time, end_time, vesting_amount } => {
            if vesting_amount != deposit_amount {
                return Err(
                    ContractError::InvalidSchedule(ScheduleViolation::LinearDepositMismatch),
                );
            }
            if start_time < block_time {
                return Err(
                    ContractError::InvalidSchedule(ScheduleViolation::LinearStartBeforeBlockTime),
                );
            }
            if end_time <= start_time {
                return Err(
                    ContractError::InvalidSchedule(ScheduleViolation::LinearEndNotAfterStart),
                );
            }
        },
        VestingSchedule::PeriodicVesting { start_time, end_time, vesting_interval, amount } => {
            if amount == 0 {
                return Err(ContractError::InvalidSchedule(ScheduleViolation::PeriodicZeroAmount));
            }
            if start_time < block_time {
                return Err(
                    ContractError::InvalidSchedule(ScheduleViolation::PeriodicStartBeforeBlockTime),
                );
            }
            if end_time <= start_time {
                return Err(
                    ContractError::InvalidSchedule(ScheduleViolation::PeriodicEndNotAfterStart),
                );
            }
            if vesting_interval == 0 {
                return Err(
                    ContractError::InvalidSchedule(ScheduleViolation::PeriodicZeroInterval),
                );
            }
            let time_period = end_time - start_time;
            if time_period % vesting_interval != 0 {
                return Err(
                    ContractError::InvalidSchedule(ScheduleViolation::PeriodicIntervalMisaligned),
                );
            }
            let num_interval = time_period / vesting_interval;
            match amount.checked_mul(num_interval as u128) {
                None => {
                    return Err(ContractError::ArithmeticError);
                },
                Some(total) => {
                    if total != deposit_amount {
                        return Err(
                            ContractError::InvalidSchedule(
                                ScheduleViolation::PeriodicDepositMismatch,
                            ),
                        );
                    }
                },
            }
        },
    }
    let total_slot = ledger.find_total(&deposit_denom);
    let prior_total: u128 = match total_slot {
        Some(i) => ledger.totals[i].amount,
        None => 0,
    };
    proof {
        if ledger@.has_total(deposit_denom@) {
            let w = ledger@.total_index(deposit_denom@);
            assert(0 <= w < ledger@.totals.len() && ledger@.totals[w].denom == deposit_denom@);
        }
        assert(prior_total as int == ledger@.total_or_zero(deposit_denom@));
    }
    let new_total: u128 = match prior_total.checked_add(deposit_amount) {
        None => {
            return Err(ContractError::ArithmeticError);
        },
        Some(v) => v,
    };
    let mut attributes: Vec<Attribute> = Vec::new();
    attributes.push(mk_attr("action", String::from_str("register_vesting_account")));
    attributes.push(mk_attr("master_address", master_address.clone()));
    attributes.push(mk_attr("address", address.clone()));
    attributes.push(mk_attr("vesting_denom", json_string(&deposit_denom)));
    attributes.push(mk_attr("vesting_amount", u128_to_dec(deposit_amount)));
    let account = VestingAccount {
        master_address,
        address,
        vesting_denom: deposit_denom.clone(),
        vesting_amount: deposit_amount,
        vesting_schedule,
        claimed_amount: 0,
    };
    let ghost lvo = ledger@;
    let ghost acct_v = account@;
    ledger.accounts.push(account);
    match total_slot {
        Some(i) => {
            let denom_copy = ledger.totals[i].denom.clone();
            ledger.totals[i] = crate::state::DenomTotal { denom: denom_copy, amount: new_total };
        },
        None => {
            ledger.totals.push(
                crate::state::DenomTotal { denom: deposit_denom.clone(), amount: new_total },
            );
        },
    }
    let resp = Response { messages: Vec::new(), attributes };
    proof {
        let s = spec_register(
            lvo,
            block_time,
            acct_v.master_address,
            acct_v.address,
            deposit_denom@,
            deposit_amount as int,
            vesting_schedule,
        );
        let entry = TotalV {
            denom: deposit_denom@,
            amount: lvo.total_or_zero(deposit_denom@) + deposit_amount,
        };
        let totals2 = if lvo.has_total(deposit_denom@) {
            lvo.totals.update(lvo.total_index(deposit_denom@), entry)
        } else {
            lvo.totals.push(entry)
        };
        let lvn = ledger@;
        assert(lvn.accounts =~= lvo.accounts.push(acct_v));
        if lvo.has_total(deposit_denom@) {
            let w = lvo.total_index(deposit_denom@);
            assert(0 <= w < lvo.totals.len() && lvo.totals[w].denom == deposit_denom@);
            assert(lvn.totals =~= totals2);
        } else {
            assert(lvn.totals =~= totals2);
        }
        assert(resp@.messages =~= Seq::<TransferIntentV>::empty());
        assert(resp@.attributes =~= seq![
            spec_attr("action"@, "register_vesting_account"@),
            spec_attr("master_address"@, acct_v.master_address),
            spec_attr("address"@, acct_v.address),
            spec_attr("vesting_denom"@, json_string_of(deposit_denom@)),
            spec_attr("vesting_amount"@, dec_of(deposit_amount as int)),
        ]);
        assert(s == Ok::<(LedgerV, ResponseV), ErrorV>((lvn, resp@)));
        lemma_register_wf(lvo, acct_v, lvn);
    }
    Ok(resp)
}

/// Appending a fresh, valid account for an absent key and raising its
/// denomination's aggregate by its locked quantity preserves
/// well-formedness.
proof fn lemma_register_wf(lvo: LedgerV, acct_v: AccountV, lvn: LedgerV)
    requires
        lvo.wf(),
        account_ok(acct_v),
        acct_v.claimed_amount == 0,
        !lvo.has_account(acct_v.address, acct_v.vesting_denom),
        lvo.total_or_zero(acct_v.vesting_denom) + acct_v.vesting_amount <= u128::MAX as int,
        lvn.accounts == lvo.accounts.push(acct_v),
        lvn.totals == ({
            let entry = TotalV {
                denom: acct_v.vesting_denom,
                amount: lvo.total_or_zero(acct_v.vesting_denom) + acct_v.vesting_amount,
            };
            if lvo.has_total(acct_v.vesting_denom) {
                lvo.totals.update(lvo.total_index(acct_v.vesting_denom), entry)
            } else {
                lvo.totals.push(entry)
            }
        }),
    ensures
        lvn.wf(),
{
    let d = acct_v.vesting_denom;
    let n = lvo.accounts.len() as int;
    assert forall|i: int| 0 <= i < lvo.accounts.len() implies !acct_matches(
        #[trigger] lvo.accounts[i],
        acct_v.address,
        acct_v.vesting_denom,
    ) by {
        if acct_matches(lvo.accounts[i], acct_v.address, acct_v.vesting_denom) {
            assert(lvo.has_account(acct_v.address, acct_v.vesting_denom));
        }
    }
    if !lvo.has_total(d) {
        assert forall|i: int| 0 <= i < lvo.accounts.len() implies (#[trigger] lvo.accounts[i]).vesting_denom
            != d by {
            if lvo.accounts[i].vesting_denom == d {
                assert(lvo.has_total(lvo.accounts[i].vesting_denom));
            }
        }
        lemma_sum_zero_when_absent(lvo.accounts, d);
    }
    // every account's denomination keeps an aggregate entry
    assert forall|i: int| 0 <= i < lvn.accounts.len() implies lvn.has_total(
        (#[trigger] lvn.accounts[i]).vesting_denom,
    ) by {
        let dd = lvn.accounts[i].vesting_denom;
        if lvo.has_total(d) {
            let w = lvo.total_index(d);
            if i < n {
                assert(lvo.has_total(dd));
                let k = lvo.total_index(dd);
                assert(lvo.totals[k].denom == dd);
                assert(lvn.totals[k].denom == dd);
            } else {
                assert(lvn.totals[w].denom == d);
            }
        } else {
            if i < n {
                assert(lvo.has_total(dd));
                let k = lvo.total_index(dd);
                assert(lvn.totals[k].denom == dd);
            } else {
                assert(lvn.totals[lvo.totals.len() as int].denom == d);
            }
        }
    }
    // aggregate entries stay unique
    if lvo.has_total(d) {
        let w = lvo.total_index(d);
        assert(lvo.totals[w].denom == d);
        assert forall|i: int, j: int|
            #![trigger lvn.totals[i], lvn.totals[j]]
            0 <= i < lvn.totals.len() && 0 <= j < lvn.totals.len() && i != j implies lvn.totals[i].denom
            != lvn.totals[j].denom by {
            assert(lvn.totals[i].denom == lvo.totals[i].denom);
            assert(lvn.totals[j].denom == lvo.totals[j].denom);
        }
    } else {
        assert forall|i: int| 0 <= i < lvo.totals.len() implies (#[trigger] lvo.totals[i]).denom
            != d by {
            if lvo.totals[i].denom == d {
                assert(lvo.has_total(d));
            }
        }
    }
    // each aggregate entry equals the outstanding sum of its denomination
    assert forall|k: int| 0 <= k < lvn.totals.len() implies (#[trigger] lvn.totals[k]).amount
        == spec_outstanding_sum(lvn.accounts, lvn.totals[k].denom) && 0 <= lvn.totals[k].amount
        <= u128::MAX by {
        lemma_sum_push(lvo.accounts, acct_v, lvn.totals[k].denom);
        if lvo.has_total(d) {
            let w = lvo.total_index(d);
            assert(lvo.totals[w].denom == d);
            if k == w {
                assert(lvn.totals[k].denom == d);
                assert(outstanding_of(acct_v, d) == acct_v.vesting_amount);
            } else {
                assert(lvn.totals[k] == lvo.totals[k]);
                assert(lvo.totals[k].denom != d);
                assert(outstanding_of(acct_v, lvo.totals[k].denom) == 0);
            }
        } else {
            if k == lvo.totals.len() as int {
                assert(lvn.totals[k].denom == d);
                assert(outstanding_of(acct_v, d) == acct_v.vesting_amount);
            } else {
                assert(lvn.totals[k] == lvo.totals[k]);
                if lvo.totals[k].denom == d {
                    assert(lvo.has_total(d));
                }
                assert(outstanding_of(acct_v, lvo.totals[k].denom) == 0);
            }
        }
    }
}

/// What deregistering does: the sender's account for the denomination is
/// removed; the vested, unclaimed portion goes to the sender or the chosen
/// recipient, the unvested remainder to the master address; the
/// denomination's aggregate drops by the account's whole outstanding
/// quantity.
pub open spec fn spec_deregister(
    lv: LedgerV,
    block_time: u64,
    sender: Seq<char>,
    denom: Seq<char>,
    vested_token_recipient: Option<Seq<char>>,
    funds: Seq<CoinV>,
) -> Result<(LedgerV, ResponseV), ErrorV> {
    if funds.len() != 0 {
        Err(ErrorV::FundsNotAllowed)
    } else if !lv.has_account(sender, denom) {
        Err(ErrorV::NotFound { denom })
    } else {
        let a = lv.account_at(sender, denom);
        if !crate::msg::spec_vested_ok(a.vesting_schedule, block_time) {
            Err(ErrorV::ArithmeticError)
        } else {
            let v = crate::msg::spec_vested_amount(a.vesting_schedule, block_time);
            if v < a.claimed_amount {
                Err(ErrorV::ArithmeticError)
            } else {
                let c = v - a.claimed_amount;
                let rcpt = match vested_token_recipient {
                    Option::Some(r) => r,
                    Option::None => sender,
                };
                if c > 0 && !spec_addr_valid(rcpt) {
                    Err(ErrorV::InvalidAddress)
                } else if a.vesting_amount < v {
                    Err(ErrorV::ArithmeticError)
                } else {
                    let left = a.vesting_amount - v;
                    if left > 0 && !spec_addr_valid(a.master_address) {
                        Err(ErrorV::InvalidAddress)
                    } else if !lv.has_total(denom) {
                        Err(ErrorV::InconsistentState)
                    } else if lv.total_amount(denom) < a.vesting_amount - a.claimed_amount {
                        Err(ErrorV::ArithmeticError)
                    } else {
                        let vested_part: Seq<TransferIntentV> = if c > 0 {
                            seq![TransferIntentV { to_address: rcpt, denom, amount: c }]
                        } else {
                            Seq::empty()
                        };
                        let left_part: Seq<TransferIntentV> = if left > 0 {
                            seq![
                                TransferIntentV {
                                    to_address: a.master_address,
                                    denom,
                                    amount: left,
                                },
                            ]
                        } else {
                            Seq::empty()
                        };
                        let tidx = lv.total_index(denom);
                        let lv2 = LedgerV {
                            accounts: lv.accounts.remove(lv.account_index(sender, denom)),
                            totals: lv.totals.update(
                                tidx,
                                TotalV {
                                    denom: lv.totals[tidx].denom,
                                    amount: lv.total_amount(denom) - (a.vesting_amount
                                        - a.claimed_amount),
                                },
                            ),
                        };
                        Ok(
                            (
                                lv2,
                                ResponseV {
                                    messages: vested_part + left_part,
                                    attributes: seq![
                                        spec_attr("action"@, "deregister_vesting_account"@),
                                        spec_attr("address"@, sender),
                                        spec_attr("vesting_denom"@, json_string_of(denom)),
                                        spec_attr("vesting_amount"@, dec_of(a.vesting_amount)),
                                        spec_attr("vested_amount"@, dec_of(v)),
                                        spec_attr("left_vesting_amount"@, dec_of(left)),
                                    ],
                                },
                            ),
                        )
                    }
                }
            }
        }
    }
}

/// Removing an account and lowering its denomination's aggregate entry by
/// the account's outstanding quantity preserves well-formedness.
proof fn lemma_deregister_wf(lvo: LedgerV, idx: int, tidx: int, lvn: LedgerV)
    requires
        lvo.wf(),
        0 <= idx < lvo.accounts.len(),
        0 <= tidx < lvo.totals.len(),
        lvo.accounts[idx].vesting_denom == lvo.totals[tidx].denom,
        lvn.accounts == lvo.accounts.remove(idx),
        lvn.totals == lvo.totals.update(
            tidx,
            TotalV {
                denom: lvo.totals[tidx].denom,
                amount: lvo.totals[tidx].amount - outstanding_of(
                    lvo.accounts[idx],
                    lvo.totals[tidx].denom,
                ),
            },
        ),
    ensures
        lvn.wf(),
{
    let d = lvo.totals[tidx].denom;
    let removed = lvo.accounts[idx];
    assert(forall|j: int|
        0 <= j < lvn.accounts.len() ==> #[trigger] lvn.accounts[j] == (if j < idx {
            lvo.accounts[j]
        } else {
            lvo.accounts[j + 1]
        }));
    assert forall|i: int| 0 <= i < lvn.accounts.len() implies lvn.has_total(
        (#[trigger] lvn.accounts[i]).vesting_denom,
    ) by {
        let dd = lvn.accounts[i].vesting_denom;
        assert(lvo.has_total(dd));
        let k = lvo.total_index(dd);
        assert(lvo.totals[k].denom == dd);
        assert(lvn.totals[k].denom == dd);
    }
    assert forall|k: int| 0 <= k < lvn.totals.len() implies (#[trigger] lvn.totals[k]).amount
        == spec_outstanding_sum(lvn.accounts, lvn.totals[k].denom) && 0 <= lvn.totals[k].amount
        <= u128::MAX by {
        let dk = lvn.totals[k].denom;
        crate::state::lemma_sum_remove(lvo.accounts, idx, dk);
        if k != tidx {
            assert(lvn.totals[k] == lvo.totals[k]);
            assert(lvo.totals[k].denom != d);
            assert(outstanding_of(removed, dk) == 0);
        }
        assert(forall|j: int|
            0 <= j < lvn.accounts.len() ==> (#[trigger] lvn.accounts[j]).claimed_amount
                <= lvn.accounts[j].vesting_amount);
        crate::state::lemma_sum_nonneg(lvn.accounts, dk);
    }
}

/// Removes the sender's vesting account for the denomination, paying out
/// the vested, unclaimed portion and returning the unvested remainder to
/// the master address.
pub fn deregister_vesting_account(
    ledger: &mut Ledger,
    block_time: u64,
    sender: String,
    funds: &Vec<Coin>,
    denom: String,
    vested_token_recipient: Option<String>,
) -> (r: Result<Response, ContractError>)
    requires
        old(ledger)@.wf(),
    ensures
        ({
            let s = spec_deregister(
                old(ledger)@,
                block_time,
                sender@,
                denom@,
                opt_str_view(vested_token_recipient),
                coins_view(funds@),
            );
            match r {
                Ok(resp) => s == Ok::<(LedgerV, ResponseV), ErrorV>((final(ledger)@, resp@))
                    && final(ledger)@.wf(),
                Err(e) => s == Err::<(LedgerV, ResponseV), ErrorV>(e@) && final(ledger)@ == old(
                    ledger,
                )@,
            }
        }),
{
    if funds.len() != 0 {
        return Err(ContractError::FundsNotAllowed);
    }
    let idx = match ledger.find_account(&sender, &denom) {
        None => {
            return Err(ContractError::NotFound { denom });
        },
        Some(i) => i,
    };
    proof {
        assert(acct_matches(ledger@.accounts[idx as int], sender@, denom@));
        let w = ledger@.account_index(sender@, denom@);
        assert(0 <= w < ledger@.accounts.len() && acct_matches(
            ledger@.accounts[w],
            sender@,
            denom@,
        ));
        assert(w == idx as int);
        assert(account_ok(ledger@.accounts[idx as int]));
    }
    let schedule = ledger.accounts[idx].vesting_schedule;
    let claimed = ledger.accounts[idx].claimed_amount;
    let acct_vesting = ledger.accounts[idx].vesting_amount;
    let master = ledger.accounts[idx].master_address.clone();
    let vested = match schedule.vested_amount(block_time) {
        Ok(v) => v,
        Err(e) => {
            return Err(e);
        },
    };
    let claimable = match vested.checked_sub(claimed) {
        Some(c) => c,
        None => {
            return Err(ContractError::ArithmeticError);
        },
    };
    let mut messages: Vec<TransferIntent> = Vec::new();
    if claimable > 0 {
        let rcpt = match vested_token_recipient {
            Some(recipient) => recipient,
            None => sender.clone(),
        };
        if let Err(e) = addr_validate(&rcpt) {
            return Err(e);
        }
        messages.push(TransferIntent { to_address: rcpt, denom: denom.clone(), amount: claimable });
    }
    let left = match acct_vesting.checked_sub(vested) {
        Some(l) => l,
        None => {
            return Err(ContractError::ArithmeticError);
        },
    };
    if left > 0 {
        if let Err(e) = addr_validate(&master) {
            return Err(e);
        }
        messages.push(TransferIntent { to_address: master, denom: denom.clone(), amount: left });
    }
    let tidx = match ledger.find_total(&denom) {
        None => {
            return Err(ContractError::InconsistentState);
        },
        Some(t) => t,
    };
    proof {
        assert(ledger@.has_total(denom@));
        let w = ledger@.total_index(denom@);
        assert(0 <= w < ledger@.totals.len() && ledger@.totals[w].denom == denom@);
        assert(w == tidx as int);
    }
    let outstanding = acct_vesting - claimed;
    let q = ledger.totals[tidx].amount;
    let new_q = match q.checked_sub(outstanding) {
        Some(nq) => nq,
        None => {
            return Err(ContractError::ArithmeticError);
        },
    };
    let mut attributes: Vec<Attribute> = Vec::new();
    attributes.push(mk_attr("action", String::from_str("deregister_vesting_account")));
    attributes.push(mk_attr("address", sender.clone()));
    attributes.push(mk_attr("vesting_denom", json_string(&denom)));
    attributes.push(mk_attr("vesting_amount", u128_to_dec(acct_vesting)));
    attributes.push(mk_attr("vested_amount", u128_to_dec(vested)));
    attributes.push(mk_attr("left_vesting_amount", u128_to_dec(left)));
    let ghost lvo = ledger@;
    ledger.accounts.remove(idx);
    let denom_copy = ledger.totals[tidx].denom.clone();
    ledger.totals[tidx] = crate::state::DenomTotal { denom: denom_copy, amount: new_q };
    let resp = Response { messages, attributes };
    proof {
        let s = spec_deregister(
            lvo,
            block_time,
            sender@,
            denom@,
            opt_str_view(vested_token_recipient),
            coins_view(funds@),
        );
        let a = lvo.account_at(sender@, denom@);
        let v = crate::msg::spec_vested_amount(a.vesting_schedule, block_time);
        let c = v - a.claimed_amount;
        let left_s = a.vesting_amount - v;
        let lvn = ledger@;
        assert(lvn.accounts =~= lvo.accounts.remove(idx as int));
        assert(lvn.totals =~= lvo.totals.update(
            tidx as int,
            TotalV {
                denom: lvo.totals[tidx as int].denom,
                amount: lvo.total_amount(denom@) - (a.vesting_amount - a.claimed_amount),
            },
        ));
        if c > 0 && left_s > 0 {
            assert(resp@.messages =~= seq![
                TransferIntentV { to_address: resp@.messages[0].to_address, denom: denom@, amount: c },
                TransferIntentV { to_address: a.master_address, denom: denom@, amount: left_s },
            ]);
        } else if c > 0 {
            assert(resp@.messages.len() == 1);
        } else if left_s > 0 {
            assert(resp@.messages.len() == 1);
        } else {
            assert(resp@.messages.len() == 0);
        }
        let rcpt_s = match opt_str_view(vested_token_recipient) {
            Option::Some(rv) => rv,
            Option::None => sender@,
        };
        let vested_part: Seq<TransferIntentV> = if c > 0 {
            seq![TransferIntentV { to_address: rcpt_s, denom: denom@, amount: c }]
        } else {
            Seq::empty()
        };
        let left_part: Seq<TransferIntentV> = if left_s > 0 {
            seq![TransferIntentV { to_address: a.master_address, denom: denom@, amount: left_s }]
        } else {
            Seq::empty()
        };
        assert(resp@.messages =~= vested_part + left_part);
        assert(resp@.attributes =~= seq![
            spec_attr("action"@, "deregister_vesting_account"@),
            spec_attr("address"@, sender@),
            spec_attr("vesting_denom"@, json_string_of(denom@)),
            spec_attr("vesting_amount"@, dec_of(a.vesting_amount)),
            spec_attr("vested_amount"@, dec_of(v)),
            spec_attr("left_vesting_amount"@, dec_of(left_s)),
        ]);
        assert(s == Ok::<(LedgerV, ResponseV), ErrorV>((lvn, resp@)));
        lemma_deregister_wf(lvo, idx as int, tidx as int, lvn);
    }
    Ok(resp)
}

/// The state after one nonzero claim step: the key's account has its
/// claimed quantity raised to the vested quantity `v`, or is removed when
/// that exhausts it, and the denomination's aggregate drops by the
/// difference.
pub open spec fn spec_claim_apply(lv: LedgerV, sender: Seq<char>, d: Seq<char>, v: int) -> LedgerV {
    let idx = lv.account_index(sender, d);
    let a = lv.accounts[idx];
    let c = v - a.claimed_amount;
    let accounts2 = if v == a.vesting_amount {
        lv.accounts.remove(idx)
    } else {
        lv.accounts.update(idx, AccountV { claimed_amount: v, ..a })
    };
    let tidx = lv.total_index(d);
    let totals2 = lv.totals.update(
        tidx,
        TotalV { denom: lv.totals[tidx].denom, amount: lv.totals[tidx].amount - c },
    );
    LedgerV { accounts: accounts2, totals: totals2 }
}

/// The per-denom claim loop, in input order: a missing account fails the
/// whole operation, a denomination with nothing claimable is skipped, and
/// otherwise the step applies and a transfer and four attributes are
/// emitted.
pub open spec fn spec_claim_walk(
    lv: LedgerV,
    block_time: u64,
    sender: Seq<char>,
    recipient: Seq<char>,
    denoms: Seq<Seq<char>>,
    msgs: Seq<TransferIntentV>,
    attrs: Seq<AttributeV>,
) -> Result<(LedgerV, Seq<TransferIntentV>, Seq<AttributeV>), ErrorV>
    decreases denoms.len(),
{
    if denoms.len() == 0 {
        Ok((lv, msgs, attrs))
    } else {
        let d = denoms[0];
        if !lv.has_account(sender, d) {
            Err(ErrorV::NotFound { denom: d })
        } else {
            let a = lv.account_at(sender, d);
            if !crate::msg::spec_vested_ok(a.vesting_schedule, block_time) {
                Err(ErrorV::ArithmeticError)
            } else {
                let v = crate::msg::spec_vested_amount(a.vesting_schedule, block_time);
                if v < a.claimed_amount {
                    Err(ErrorV::ArithmeticError)
                } else if v == a.claimed_amount {
                    spec_claim_walk(
                        lv,
                        block_time,
                        sender,
                        recipient,
                        denoms.drop_first(),
                        msgs,
                        attrs,
                    )
                } else {
                    let c = v - a.claimed_amount;
                    if !lv.has_total(d) {
                        Err(ErrorV::InconsistentState)
                    } else if lv.total_amount(d) < c {
                        Err(ErrorV::ArithmeticError)
                    } else {
                        let msgs2 = msgs.push(
                            TransferIntentV { to_address: recipient, denom: d, amount: c },
                        );
                        let attrs2 = attrs + seq![
                            spec_attr("vesting_denom"@, json_string_of(d)),
                            spec_attr("vesting_amount"@, dec_of(a.vesting_amount)),
                            spec_attr("vested_amount"@, dec_of(v)),
                            spec_attr("claim_amount"@, dec_of(c)),
                        ];
                        spec_claim_walk(
                            spec_claim_apply(lv, sender, d, v),
                            block_time,
                            sender,
                            recipient,
                            denoms.drop_first(),
                            msgs2,
                            attrs2,
                        )
                    }
                }
            }
        }
    }
}

/// What claiming does: with no funds attached and a valid recipient
/// (defaulting to the sender), the denominations are processed in order;
/// on success the response carries one transfer per denomination that had
/// anything claimable, after the two leading attributes.
pub open spec fn spec_claim(
    lv: LedgerV,
    block_time: u64,
    sender: Seq<char>,
    funds: Seq<CoinV>,
    denoms: Seq<Seq<char>>,
    recipient: Option<Seq<char>>,
) -> Result<(LedgerV, ResponseV), ErrorV> {
    if funds.len() != 0 {
        Err(ErrorV::FundsNotAllowed)
    } else {
        let rcpt = match recipient {
            Option::Some(r) => r,
            Option::None => sender,
        };
        if !spec_addr_valid(rcpt) {
            Err(ErrorV::InvalidAddress)
        } else {
            match spec_claim_walk(
                lv,
                block_time,
                sender,
                rcpt,
                denoms,
                Seq::empty(),
                Seq::empty(),
            ) {
                Err(e) => Err(e),
                Ok((lv2, msgs, attrs)) => Ok(
                    (
                        lv2,
                        ResponseV {
                            messages: msgs,
                            attributes: seq![
                                spec_attr("action"@, "claim"@),
                                spec_attr("address"@, sender),
                            ] + attrs,
                        },
                    ),
                ),
            }
        }
    }
}

/// A nonzero claim step against a well-formed state never underflows the
/// aggregate, and preserves well-formedness.
pub proof fn lemma_claim_apply_wf(
    lv: LedgerV,
    block_time: u64,
    sender: Seq<char>,
    d: Seq<char>,
    v: int,
)
    requires
        lv.wf(),
        lv.has_account(sender, d),
        lv.has_total(d),
        v == crate::msg::spec_vested_amount(lv.account_at(sender, d).vesting_schedule, block_time),
        lv.account_at(sender, d).claimed_amount < v,
    ensures
        lv.total_amount(d) >= v - lv.account_at(sender, d).claimed_amount,
        spec_claim_apply(lv, sender, d, v).wf(),
{
    let idx = lv.account_index(sender, d);
    let a = lv.accounts[idx];
    assert(0 <= idx < lv.accounts.len() && acct_matches(a, sender, d));
    assert(account_ok(a));
    crate::msg::lemma_vested_bounds(a.vesting_schedule, block_time);
    assert(v <= a.vesting_amount);
    let c = v - a.claimed_amount;
    let tidx = lv.total_index(d);
    assert(0 <= tidx < lv.totals.len() && lv.totals[tidx].denom == d);
    crate::state::lemma_sum_lower_bound(lv.accounts, idx, d);
    assert(lv.totals[tidx].amount >= a.vesting_amount - a.claimed_amount);
    let lvn = spec_claim_apply(lv, sender, d, v);
    if v == a.vesting_amount {
        lemma_deregister_wf(lv, idx, tidx, lvn);
    } else {
        let a2 = AccountV { claimed_amount: v, ..a };
        assert(account_ok(a2));
        assert forall|i: int| 0 <= i < lvn.accounts.len() implies lvn.has_total(
            (#[trigger] lvn.accounts[i]).vesting_denom,
        ) by {
            let dd = lvn.accounts[i].vesting_denom;
            assert(dd == lv.accounts[i].vesting_denom);
            assert(lv.has_total(dd));
            let k = lv.total_index(dd);
            assert(lv.totals[k].denom == dd);
            assert(lvn.totals[k].denom == dd);
        }
        assert forall|k: int| 0 <= k < lvn.totals.len() implies (#[trigger] lvn.totals[k]).amount
            == spec_outstanding_sum(lvn.accounts, lvn.totals[k].denom) && 0 <= lvn.totals[k].amount
            <= u128::MAX by {
            let dk = lvn.totals[k].denom;
            crate::state::lemma_sum_update(lv.accounts, idx, a2, dk);
            if k != tidx {
                assert(lvn.totals[k] == lv.totals[k]);
                assert(lv.totals[k].denom != d);
                assert(outstanding_of(a, dk) == outstanding_of(a2, dk));
            }
            assert(forall|j: int|
                0 <= j < lvn.accounts.len() ==> (#[trigger] lvn.accounts[j]).claimed_amount
                    <= lvn.accounts[j].vesting_amount);
            crate::state::lemma_sum_nonneg(lvn.accounts, dk);
        }
    }
}

/// Withdraws the vested, unclaimed quantity of each listed denomination to
/// the recipient, removing any account the claim exhausts. A failure on
/// any denomination leaves the whole state unchanged.
pub fn claim(
    ledger: &mut Ledger,
    block_time: u64,
    sender: String,
    funds: &Vec<Coin>,
    denoms: Vec<String>,
    recipient: Option<String>,
) -> (r: Result<Response, ContractError>)
    requires
        old(ledger)@.wf(),
    ensures
        ({
            let s = spec_claim(
                old(ledger)@,
                block_time,
                sender@,
                coins_view(funds@),
                strings_view(denoms@),
                opt_str_view(recipient),
            );
            match r {
                Ok(resp) => s == Ok::<(LedgerV, ResponseV), ErrorV>((final(ledger)@, resp@))
                    && final(ledger)@.wf(),
                Err(e) => s == Err::<(LedgerV, ResponseV), ErrorV>(e@) && final(ledger)@ == old(
                    ledger,
                )@,
            }
        }),
{
    if funds.len() != 0 {
        return Err(ContractError::FundsNotAllowed);
    }
    let rcpt = match &recipient {
        Some(r) => r.clone(),
        None => sender.clone(),
    };
    if let Err(e) = addr_validate(&rcpt) {
        return Err(e);
    }
    let mut scratch = ledger.duplicate();
    let mut messages: Vec<TransferIntent> = Vec::new();
    let mut extra_attrs: Vec<Attribute> = Vec::new();
    proof {
        assert(strings_view(denoms@).skip(0) =~= strings_view(denoms@));
        assert(intents_view(messages@) =~= Seq::<TransferIntentV>::empty());
        assert(attrs_view(extra_attrs@) =~= Seq::<AttributeV>::empty());
    }
    let mut i: usize = 0;
    while i < denoms.len()
        invariant
            i <= denoms.len(),
            ledger@ == old(ledger)@,
            scratch@.wf(),
            funds@.len() == 0,
            rcpt@ == (match opt_str_view(recipient) {
                Option::Some(rv) => rv,
                Option::None => sender@,
            }),
            spec_addr_valid(rcpt@),
            spec_claim_walk(
                old(ledger)@,
                block_time,
                sender@,
                rcpt@,
                strings_view(denoms@),
                Seq::empty(),
                Seq::empty(),
            ) == spec_claim_walk(
                scratch@,
                block_time,
                sender@,
                rcpt@,
                strings_view(denoms@).skip(i as int),
                intents_view(messages@),
                attrs_view(extra_attrs@),
            ),
        decreases denoms.len() - i,
    {
        let ghost dv = strings_view(denoms@);
        let ghost rest = dv.skip(i as int);
        proof {
            assert(rest.len() == dv.len() - i);
            assert(rest[0] == dv[i as int]);
        }
        let d = &denoms[i];
        let idx = match scratch.find_account(&sender, d) {
            None => {
                return Err(ContractError::NotFound { denom: d.clone() });
            },
            Some(found) => found,
        };
        proof {
            assert(acct_matches(scratch@.accounts[idx as int], sender@, d@));
            let w = scratch@.account_index(sender@, d@);
            assert(0 <= w < scratch@.accounts.len() && acct_matches(
                scratch@.accounts[w],
                sender@,
                d@,
            ));
            assert(w == idx as int);
            assert(account_ok(scratch@.accounts[idx as int]));
        }
        let schedule = scratch.accounts[idx].vesting_schedule;
        let claimed = scratch.accounts[idx].claimed_amount;
        let acct_vesting = scratch.accounts[idx].vesting_amount;
        let vested = match schedule.vested_amount(block_time) {
            Ok(v) => v,
            Err(e) => {
                return Err(e);
            },
        };
        let claimable = match vested.checked_sub(claimed) {
            Some(c) => c,
            None => {
                return Err(ContractError::ArithmeticError);
            },
        };
        if claimable == 0 {
            proof {
                assert(rest.drop_first() =~= dv.skip(i + 1));
            }
            i = i + 1;
            continue;
        }
        let ghost pre = scratch@;
        let ghost msgs_pre = intents_view(messages@);
        let ghost attrs_pre = attrs_view(extra_attrs@);
        extra_attrs.push(mk_attr("vesting_denom", json_string(d)));
        extra_attrs.push(mk_attr("vesting_amount", u128_to_dec(acct_vesting)));
        extra_attrs.push(mk_attr("vested_amount", u128_to_dec(vested)));
        extra_attrs.push(mk_attr("claim_amount", u128_to_dec(claimable)));
        messages.push(
            TransferIntent { to_address: rcpt.clone(), denom: d.clone(), amount: claimable },
        );
        if vested == acct_vesting {
            scratch.accounts.remove(idx);
        } else {
            let mut updated = scratch.accounts[idx].duplicate();
            updated.claimed_amount = vested;
            scratch.accounts[idx] = updated;
        }
        let tidx = match scratch.find_total(d) {
            None => {
                proof {
                    assert(scratch@.totals =~= pre.totals);
                    if pre.has_total(d@) {
                        let k = pre.total_index(d@);
                        assert(pre.totals[k].denom == d@);
                        assert(scratch@.totals[k].denom == d@);
                        assert(scratch@.has_total(d@));
                    }
                }
                return Err(ContractError::InconsistentState);
            },
            Some(t) => t,
        };
        proof {
            assert(scratch@.totals =~= pre.totals);
            assert(pre.has_total(d@));
            let w = pre.total_index(d@);
            assert(0 <= w < pre.totals.len() && pre.totals[w].denom == d@);
            assert(w == tidx as int);
            lemma_claim_apply_wf(pre, block_time, sender@, d@, vested as int);
        }
        let q = scratch.totals[tidx].amount;
        let new_q = match q.checked_sub(claimable) {
            Some(nq) => nq,
            None => {
                return Err(ContractError::ArithmeticError);
            },
        };
        let denom_copy = scratch.totals[tidx].denom.clone();
        scratch.totals[tidx] = crate::state::DenomTotal { denom: denom_copy, amount: new_q };
        proof {
            assert(scratch@ =~= spec_claim_apply(pre, sender@, d@, vested as int));
            assert(rest.drop_first() =~= dv.skip(i + 1));
            let a = pre.account_at(sender@, d@);
            let c = vested - a.claimed_amount;
            assert(intents_view(messages@) =~= msgs_pre.push(
                TransferIntentV { to_address: rcpt@, denom: d@, amount: c },
            ));
            assert(attrs_view(extra_attrs@) =~= attrs_pre + seq![
                spec_attr("vesting_denom"@, json_string_of(d@)),
                spec_attr("vesting_amount"@, dec_of(a.vesting_amount)),
                spec_attr("vested_amount"@, dec_of(vested as int)),
                spec_attr("claim_amount"@, dec_of(c)),
            ]);
        }
        i = i + 1;
    }
    let ghost msgs_walk = intents_view(messages@);
    let ghost attrs_walk = attrs_view(extra_attrs@);
    proof {
        assert(strings_view(denoms@).skip(denoms@.len() as int) =~= Seq::<Seq<char>>::empty());
    }
    let mut attributes: Vec<Attribute> = Vec::new();
    attributes.push(mk_attr("action", String::from_str("claim")));
    attributes.push(mk_attr("address", sender.clone()));
    attributes.append(&mut extra_attrs);
    *ledger = scratch;
    let resp = Response { messages, attributes };
    proof {
        assert(resp@.messages =~= msgs_walk);
        assert(resp@.attributes =~= seq![
            spec_attr("action"@, "claim"@),
            spec_attr("address"@, sender@),
        ] + attrs_walk);
    }
    Ok(resp)
}

/// What the dispatcher does with an operation message: register demands
/// exactly one attached coin with a positive quantity; the other
/// operations check their own funds precondition.
pub open spec fn spec_execute(
    lv: LedgerV,
    block_time: u64,
    sender: Seq<char>,
    funds: Seq<CoinV>,
    msg: ExecuteMsg,
) -> Result<(LedgerV, ResponseV), ErrorV> {
    match msg {
        ExecuteMsg::RegisterVestingAccount { master_address, address, vesting_schedule } => {
            if funds.len() != 1 {
                Err(ErrorV::InvalidFunds)
            } else if funds[0].amount == 0 {
                Err(ErrorV::ZeroDeposit)
            } else {
                spec_register(
                    lv,
                    block_time,
                    master_address@,
                    address@,
                    funds[0].denom,
                    funds[0].amount,
                    vesting_schedule,
                )
            }
        },
        ExecuteMsg::DeregisterVestingAccount { denom, vested_token_recipient } => spec_deregister(
            lv,
            block_time,
            sender,
            denom@,
            opt_str_view(vested_token_recipient),
            funds,
        ),
        ExecuteMsg::Claim { denoms, recipient } => spec_claim(
            lv,
            block_time,
            sender,
            funds,
            strings_view(denoms@),
            opt_str_view(recipient),
        ),
    }
}

/// Routes an operation message, with the host-supplied sender, attached
/// funds and block time, to the lifecycle manager.
pub fn execute(
    ledger: &mut Ledger,
    block_time: u64,
    sender: String,
    funds: &Vec<Coin>,
    msg: ExecuteMsg,
) -> (r: Result<Response, ContractError>)
    requires
        old(ledger)@.wf(),
    ensures
        ({
            let s = spec_execute(old(ledger)@, block_time, sender@, coins_view(funds@), msg);
            match r {
                Ok(resp) => s == Ok::<(LedgerV, ResponseV), ErrorV>((final(ledger)@, resp@))
                    && final(ledger)@.wf(),
                Err(e) => s == Err::<(LedgerV, ResponseV), ErrorV>(e@) && final(ledger)@ == old(
                    ledger,
                )@,
            }
        }),
{
    match msg {
        ExecuteMsg::RegisterVestingAccount { master_address, address, vesting_schedule } => {
            if funds.len() != 1 {
                return Err(ContractError::InvalidFunds);
            }
            let deposit_denom = funds[0].denom.clone();
            let deposit_amount = funds[0].amount;
            if deposit_amount == 0 {
                return Err(ContractError::ZeroDeposit);
            }
            register_vesting_account(
                ledger,
                block_time,
                master_address,
                address,
                deposit_denom,
                deposit_amount,
                vesting_schedule,
            )
        },
        ExecuteMsg::DeregisterVestingAccount { denom, vested_token_recipient } => {
            deregister_vesting_account(
                ledger,
                block_time,
                sender,
                funds,
                denom,
                vested_token_recipient,
            )
        },
        ExecuteMsg::Claim { denoms, recipient } => {
            claim(ledger, block_time, sender, funds, denoms, recipient)
        },
    }
}

/// The sort key under which a stored account's denomination is listed:
/// deposits arrive as native coins, so the native tag applies.
pub open spec fn spec_native_key(denom: Seq<char>) -> Seq<char> {
    "native-"@ + denom
}

/// Whether an account's denomination lies strictly after the cursor.
pub open spec fn spec_cursor_ok(start_after: Option<DenomV>, denom: Seq<char>) -> bool {
    match start_after {
        Option::None => true,
        Option::Some(c) => lex_lt(crate::state::spec_denom_key(c), spec_native_key(denom)),
    }
}

/// Whether a listing selects the account: it belongs to the queried
/// beneficiary and lies after the cursor.
pub open spec fn spec_listing_match(
    a: AccountV,
    address: Seq<char>,
    start_after: Option<DenomV>,
) -> bool {
    a.address == address && spec_cursor_ok(start_after, a.vesting_denom)
}

/// Inserts an account into a listing before the first entry whose sort key
/// lies after its own.
pub open spec fn spec_insert_sorted(s: Seq<AccountV>, a: AccountV) -> Seq<AccountV>
    decreases s.len(),
{
    if s.len() == 0 {
        seq![a]
    } else if lex_lt(spec_native_key(a.vesting_denom), spec_native_key(s[0].vesting_denom)) {
        seq![a] + s
    } else {
        seq![s[0]] + spec_insert_sorted(s.drop_first(), a)
    }
}

/// The beneficiary's selected accounts, ascending by tagged denomination
/// key.
pub open spec fn spec_listing(
    accounts: Seq<AccountV>,
    address: Seq<char>,
    start_after: Option<DenomV>,
) -> Seq<AccountV>
    decreases accounts.len(),
{
    if accounts.len() == 0 {
        Seq::empty()
    } else {
        let rest = spec_listing(accounts.drop_last(), address, start_after);
        if spec_listing_match(accounts.last(), address, start_after) {
            spec_insert_sorted(rest, accounts.last())
        } else {
            rest
        }
    }
}

/// The effective page size: the requested limit capped at 30, or 10 when
/// none is given.
pub open spec fn spec_limit(limit: Option<u32>) -> int {
    match limit {
        Option::Some(l) => if l > 30 {
            30
        } else {
            l as int
        },
        Option::None => 10,
    }
}

/// Computes the listing's entries, with the vested and claimable
/// quantities evaluated at the block time.
pub open spec fn spec_rows_walk(
    s: Seq<AccountV>,
    block_time: u64,
    acc: Seq<VestingDataV>,
) -> Result<Seq<VestingDataV>, ErrorV>
    decreases s.len(),
{
    if s.len() == 0 {
        Ok(acc)
    } else {
        let a = s[0];
        if !crate::msg::spec_vested_ok(a.vesting_schedule, block_time) {
            Err(ErrorV::ArithmeticError)
        } else {
            let v = crate::msg::spec_vested_amount(a.vesting_schedule, block_time);
            if v < a.claimed_amount {
                Err(ErrorV::ArithmeticError)
            } else {
                spec_rows_walk(
                    s.drop_first(),
                    block_time,
                    acc.push(
                        VestingDataV {
                            master_address: a.master_address,
                            vesting_denom: a.vesting_denom,
                            vesting_amount: a.vesting_amount,
                            vested_amount: v,
                            vesting_schedule: a.vesting_schedule,
                            claimable_amount: v - a.claimed_amount,
                        },
                    ),
                )
            }
        }
    }
}

/// The spec-level value of an optional tagged denomination.
pub open spec fn opt_denom_view(o: Option<Denom>) -> Option<DenomV> {
    match o {
        Option::Some(d) => Option::Some(d@),
        Option::None => Option::None,
    }
}

/// What the vesting-account query returns: the beneficiary's accounts
/// after the cursor, ascending by tagged denomination key, up to the
/// limit, each with its on-the-fly vested and claimable quantities.
pub open spec fn spec_vesting_account(
    lv: LedgerV,
    block_time: u64,
    address: Seq<char>,
    start_after: Option<DenomV>,
    limit: Option<u32>,
) -> Result<VestingAccountResponseV, ErrorV> {
    if !spec_addr_valid(address) {
        Err(ErrorV::InvalidAddress)
    } else {
        let listing = spec_listing(lv.accounts, address, start_after);
        let lim = spec_limit(limit);
        let taken = if listing.len() > lim {
            listing.take(lim)
        } else {
            listing
        };
        match spec_rows_walk(taken, block_time, Seq::empty()) {
            Err(e) => Err(e),
            Ok(rows) => Ok(VestingAccountResponseV { address, vestings: rows }),
        }
    }
}

/// The spec-level values of a list of accounts.
pub open spec fn accounts_view(v: Seq<VestingAccount>) -> Seq<AccountV> {
    Seq::new(v.len(), |i: int| v[i]@)
}

/// Builds the native-tagged sort key of a stored denomination.
fn native_key_string(denom: &String) -> (r: String)
    ensures
        r@ == spec_native_key(denom@),
{
    let mut s = String::from_str("native-");
    s.append(denom.as_str());
    s
}

/// Builds the sort key of a borrowed tagged denomination.
fn tagged_key(d: &Denom) -> (r: String)
    ensures
        r@ == crate::state::spec_denom_key(d@),
{
    match d {
        Denom::Native(name) => {
            let mut s = String::from_str("native-");
            s.append(name.as_str());
            s
        },
        Denom::Cw20(addr) => {
            let mut s = String::from_str("cw20-");
            s.append(addr.as_str());
            s
        },
    }
}

/// Inserting before the first entry with a later key is what
/// `spec_insert_sorted` does.
proof fn lemma_insert_sorted_at(s: Seq<AccountV>, a: AccountV, pos: int)
    requires
        0 <= pos <= s.len(),
        forall|j: int|
            0 <= j < pos ==> !lex_lt(
                spec_native_key(a.vesting_denom),
                spec_native_key((#[trigger] s[j]).vesting_denom),
            ),
        pos < s.len() ==> lex_lt(
            spec_native_key(a.vesting_denom),
            spec_native_key(s[pos].vesting_denom),
        ),
    ensures
        spec_insert_sorted(s, a) == s.insert(pos, a),
    decreases s.len(),
{
    if s.len() == 0 {
        assert(spec_insert_sorted(s, a) =~= s.insert(0, a));
    } else if pos == 0 {
        assert(lex_lt(spec_native_key(a.vesting_denom), spec_native_key(s[0].vesting_denom)));
        assert(spec_insert_sorted(s, a) =~= s.insert(0, a));
    } else {
        assert(!lex_lt(spec_native_key(a.vesting_denom), spec_native_key(s[0].vesting_denom)));
        let rest = s.drop_first();
        assert(forall|j: int| 0 <= j < pos - 1 ==> #[trigger] rest[j] == s[j + 1]);
        lemma_insert_sorted_at(rest, a, pos - 1);
        assert(spec_insert_sorted(s, a) == seq![s[0]] + rest.insert(pos - 1, a));
        assert(seq![s[0]] + rest.insert(pos - 1, a) =~= s.insert(pos, a));
    }
}

/// Finds where a key belongs in the selection: before the first entry
/// whose sort key lies after it.
fn find_insert_pos(selected: &Vec<VestingAccount>, key: &String) -> (pos: usize)
    ensures
        0 <= pos <= selected@.len(),
        forall|j: int|
            0 <= j < pos ==> !lex_lt(
                key@,
                spec_native_key((#[trigger] accounts_view(selected@)[j]).vesting_denom),
            ),
        pos < selected@.len() ==> lex_lt(
            key@,
            spec_native_key(accounts_view(selected@)[pos as int].vesting_denom),
        ),
{
    let mut pos: usize = 0;
    loop
        invariant
            0 <= pos <= selected@.len(),
            forall|j: int|
                0 <= j < pos ==> !lex_lt(
                    key@,
                    spec_native_key((#[trigger] accounts_view(selected@)[j]).vesting_denom),
                ),
        decreases selected@.len() - pos,
    {
        if pos == selected.len() {
            return pos;
        }
        let entry_key = native_key_string(&selected[pos].vesting_denom);
        if crate::text::str_lex_lt(key, &entry_key) {
            return pos;
        }
        pos = pos + 1;
    }
}

/// Lists the beneficiary's accounts, ascending by tagged denomination key,
/// from the exclusive cursor up to the limit, computing the vested and
/// claimable quantities at the block time.
pub fn vesting_account(
    ledger: &Ledger,
    block_time: u64,
    address: String,
    start_after: Option<Denom>,
    limit: Option<u32>,
) -> (r: Result<VestingAccountResponse, ContractError>)
    requires
        ledger@.wf(),
    ensures
        ({
            let s = spec_vesting_account(
                ledger@,
                block_time,
                address@,
                opt_denom_view(start_after),
                limit,
            );
            match r {
                Ok(resp) => s == Ok::<VestingAccountResponseV, ErrorV>(resp@),
                Err(e) => s == Err::<VestingAccountResponseV, ErrorV>(e@),
            }
        }),
{
    if let Err(e) = addr_validate(&address) {
        return Err(e);
    }
    let lim: usize = match limit {
        Some(l) => if l > 30 {
            30
        } else {
            l as usize
        },
        None => 10,
    };
    let ghost sa_view = opt_denom_view(start_after);
    let cursor: Option<String> = match &start_after {
        Some(tagged) => Some(tagged_key(tagged)),
        None => None,
    };
    let mut selected: Vec<VestingAccount> = Vec::new();
    proof {
        assert(ledger@.accounts.take(0) =~= Seq::<AccountV>::empty());
        assert(accounts_view(selected@) =~= Seq::<AccountV>::empty());
    }
    let mut i: usize = 0;
    while i < ledger.accounts.len()
        invariant
            i <= ledger.accounts.len(),
            ledger@.wf(),
            accounts_view(selected@) == spec_listing(
                ledger@.accounts.take(i as int),
                address@,
                sa_view,
            ),
            forall|j: int|
                0 <= j < selected@.len() ==> account_ok(#[trigger] accounts_view(selected@)[j]),
            (match sa_view {
                Option::Some(dv) => cursor matches Some(ck) && ck@ == crate::state::spec_denom_key(
                    dv,
                ),
                Option::None => cursor is None,
            }),
        decreases ledger.accounts.len() - i,
    {
        let ghost prefix = ledger@.accounts.take(i as int);
        let ghost prefix2 = ledger@.accounts.take(i + 1);
        proof {
            assert(prefix2.drop_last() =~= prefix);
            assert(prefix2.last() == ledger@.accounts[i as int]);
            assert(account_ok(ledger@.accounts[i as int]));
        }
        let a = &ledger.accounts[i];
        if a.address == address {
            let key = native_key_string(&a.vesting_denom);
            let passes: bool = match &cursor {
                Some(ck) => crate::text::str_lex_lt(ck, &key),
                None => true,
            };
            if passes {
                let ghost sel_pre = accounts_view(selected@);
                let pos = find_insert_pos(&selected, &key);
                selected.insert(pos, a.duplicate());
                proof {
                    lemma_insert_sorted_at(sel_pre, ledger@.accounts[i as int], pos as int);
                    assert(accounts_view(selected@) =~= sel_pre.insert(
                        pos as int,
                        ledger@.accounts[i as int],
                    ));
                }
            }
        }
        i = i + 1;
    }
    proof {
        assert(ledger@.accounts.take(ledger@.accounts.len() as int) =~= ledger@.accounts);
    }
    if selected.len() > lim {
        selected.truncate(lim);
        proof {
            assert(accounts_view(selected@) =~= spec_listing(
                ledger@.accounts,
                address@,
                sa_view,
            ).take(lim as int));
        }
    }
    let ghost taken = accounts_view(selected@);
    let mut vestings: Vec<VestingData> = Vec::new();
    proof {
        assert(lim as int == spec_limit(limit));
        let listing = spec_listing(ledger@.accounts, address@, sa_view);
        if listing.len() > spec_limit(limit) {
            assert(taken == listing.take(spec_limit(limit)));
        } else {
            assert(taken == listing);
        }
        assert(taken.skip(0) =~= taken);
        assert(crate::msg::vesting_datas_view(vestings@) =~= Seq::<VestingDataV>::empty());
    }
    let mut k: usize = 0;
    while k < selected.len()
        invariant
            k <= selected.len(),
            spec_addr_valid(address@),
            sa_view == opt_denom_view(start_after),
            taken == accounts_view(selected@),
            ({
                let listing = spec_listing(ledger@.accounts, address@, sa_view);
                taken == if listing.len() > spec_limit(limit) {
                    listing.take(spec_limit(limit))
                } else {
                    listing
                }
            }),
            forall|j: int| 0 <= j < selected@.len() ==> account_ok(#[trigger] accounts_view(selected@)[j]),
            spec_rows_walk(taken, block_time, Seq::empty()) == spec_rows_walk(
                taken.skip(k as int),
                block_time,
                crate::msg::vesting_datas_view(vestings@),
            ),
        decreases selected.len() - k,
    {
        let ghost rows_pre = crate::msg::vesting_datas_view(vestings@);
        proof {
            assert(taken.skip(k as int)[0] == taken[k as int]);
            assert(account_ok(taken[k as int]));
        }
        let schedule = selected[k].vesting_schedule;
        let claimed = selected[k].claimed_amount;
        let vested = match schedule.vested_amount(block_time) {
            Ok(v) => v,
            Err(e) => {
                return Err(e);
            },
        };
        let claimable = match vested.checked_sub(claimed) {
            Some(c) => c,
            None => {
                return Err(ContractError::ArithmeticError);
            },
        };
        vestings.push(
            VestingData {
                master_address: selected[k].master_address.clone(),
                vesting_denom: selected[k].vesting_denom.clone(),
                vesting_amount: selected[k].vesting_amount,
                vested_amount: vested,
                vesting_schedule: schedule,
                claimable_amount: claimable,
            },
        );
        proof {
            assert(taken.skip(k as int).drop_first() =~= taken.skip(k + 1));
            let a = taken[k as int];
            assert(crate::msg::vesting_datas_view(vestings@) =~= rows_pre.push(
                VestingDataV {
                    master_address: a.master_address,
                    vesting_denom: a.vesting_denom,
                    vesting_amount: a.vesting_amount,
                    vested_amount: vested as int,
                    vesting_schedule: a.vesting_schedule,
                    claimable_amount: claimable as int,
                },
            ));
        }
        k = k + 1;
    }
    proof {
        assert(taken.skip(selected@.len() as int) =~= Seq::<AccountV>::empty());
    }
    Ok(VestingAccountResponse { address, vestings })
}

/// What the query dispatcher returns for each query message.
pub open spec fn spec_query(lv: LedgerV, block_time: u64, msg: QueryMsg) -> Result<
    QueryResponseV,
    ErrorV,
> {
    match msg {
        QueryMsg::VestingAccount { address, start_after, limit } => {
            match spec_vesting_account(lv, block_time, address@, opt_denom_view(start_after), limit) {
                Ok(resp) => Ok(QueryResponseV::VestingAccount(resp)),
                Err(e) => Err(e),
            }
        },
        QueryMsg::VestedTokens { denom } => Ok(QueryResponseV::VestedTokens(lv.total_or_zero(denom@))),
    }
}

/// Routes a query message to the query surface.
pub fn query(ledger: &Ledger, block_time: u64, msg: QueryMsg) -> (r: Result<
    QueryResponse,
    ContractError,
>)
    requires
        ledger@.wf(),
    ensures
        ({
            let s = spec_query(ledger@, block_time, msg);
            match r {
                Ok(resp) => s == Ok::<QueryResponseV, ErrorV>(resp@),
                Err(e) => s == Err::<QueryResponseV, ErrorV>(e@),
            }
        }),
{
    match msg {
        QueryMsg::VestingAccount { address, start_after, limit } => {
            match vesting_account(ledger, block_time, address, start_after, limit) {
                Ok(resp) => Ok(QueryResponse::VestingAccount(resp)),
                Err(e) => Err(e),
            }
        },
        QueryMsg::VestedTokens { denom } => {
            Ok(QueryResponse::VestedTokens(vested_tokens(ledger, &denom)))
        },
    }
}

} // verus!
