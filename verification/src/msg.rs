//! The engine's message types, the two vesting schedules, and the schedule
//! evaluator with its laws.

use vstd::arithmetic::div_mod::lemma_div_is_ordered;
use vstd::arithmetic::div_mod::lemma_div_multiples_vanish;
use vstd::arithmetic::div_mod::lemma_div_pos_is_pos;
use vstd::arithmetic::div_mod::lemma_fundamental_div_mod;
use vstd::arithmetic::mul::lemma_mul_inequality;
use vstd::arithmetic::mul::lemma_mul_is_commutative;
use vstd::prelude::*;

use crate::error::ContractError;

verus! {

/// Instantiation takes no parameters.
#[derive(Clone, Debug, PartialEq, Eq)]
pub struct InstantiateMsg {}

/// Migration takes no parameters.
#[derive(Clone, Debug, PartialEq, Eq)]
pub struct MigrateMsg {}

/// One attached coin: a denomination together with a quantity.
#[derive(Clone, Debug, PartialEq, Eq)]
pub struct Coin {
    pub denom: String,
    pub amount: u128,
}

/// The spec-level value of a coin.
pub ghost struct CoinV {
    pub denom: Seq<char>,
    pub amount: int,
}

impl View for Coin {
    type V = CoinV;

    open spec fn view(&self) -> CoinV {
        CoinV { denom: self.denom@, amount: self.amount as int }
    }
}

/// A denomination tagged with its namespace, as query cursors carry it.
#[derive(Clone, Debug, PartialEq, Eq)]
pub enum Denom {
    Native(String),
    Cw20(String),
}

/// The spec-level value of a tagged denomination.
pub ghost enum DenomV {
    Native(Seq<char>),
    Cw20(Seq<char>),
}

impl View for Denom {
    type V = DenomV;

    open spec fn view(&self) -> DenomV {
        match self {
            Denom::Native(d) => DenomV::Native(d@),
            Denom::Cw20(a) => DenomV::Cw20(a@),
        }
    }
}

/// A vesting schedule: how a locked quantity becomes available over time.
#[derive(Clone, Copy, Debug, PartialEq, Eq)]
pub enum VestingSchedule {
    /// Release `vesting_amount` linearly from `start_time` to `end_time`.
    LinearVesting {
        /// Vesting start time, in seconds.
        start_time: u64,
        /// Vesting end time, in seconds.
        end_time: u64,
        /// Total quantity to vest.
        vesting_amount: u128,
    },
    /// Release `amount` at the end of each `vesting_interval` within
    /// `[start_time, end_time]`; `end_time - start_time` must be a positive
    /// multiple of `vesting_interval`.
    PeriodicVesting {
        /// Vesting start time, in seconds.
        start_time: u64,
        /// Vesting end time, in seconds.
        end_time: u64,
        /// Length of one interval, in seconds.
        vesting_interval: u64,
        /// Quantity vested at the end of each interval.
        amount: u128,
    },
}

/// The start time of a schedule.
pub open spec fn spec_start_time(s: VestingSchedule) -> u64 {
    match s {
        VestingSchedule::LinearVesting { start_time, .. } => start_time,
        VestingSchedule::PeriodicVesting { start_time, .. } => start_time,
    }
}

/// The end time of a schedule.
pub open spec fn spec_end_time(s: VestingSchedule) -> u64 {
    match s {
        VestingSchedule::LinearVesting { end_time, .. } => end_time,
        VestingSchedule::PeriodicVesting { end_time, .. } => end_time,
    }
}

/// What the evaluator itself needs of a schedule; registration enforces the
/// stronger `spec_schedule_valid`.
pub open spec fn spec_schedule_evaluable(s: VestingSchedule) -> bool {
    match s {
        VestingSchedule::LinearVesting { .. } => true,
        VestingSchedule::PeriodicVesting { start_time, end_time, vesting_interval, .. } => {
            vesting_interval >= 1 && start_time <= end_time
        },
    }
}

/// The schedule preconditions that registration enforces, save the match of
/// deposit and total, which involves the attached funds.
pub open spec fn spec_schedule_valid(s: VestingSchedule) -> bool {
    match s {
        VestingSchedule::LinearVesting { start_time, end_time, vesting_amount } => {
            vesting_amount > 0 && start_time < end_time
        },
        VestingSchedule::PeriodicVesting { start_time, end_time, vesting_interval, amount } => {
            &&& amount > 0
            &&& start_time < end_time
            &&& vesting_interval >= 1
            &&& ((end_time - start_time) as int) % (vesting_interval as int) == 0
        },
    }
}

/// The total quantity a schedule ever vests.
pub open spec fn spec_schedule_total(s: VestingSchedule) -> int {
    match s {
        VestingSchedule::LinearVesting { vesting_amount, .. } => vesting_amount as int,
        VestingSchedule::PeriodicVesting { start_time, end_time, vesting_interval, amount } => {
            (amount as int) * (((end_time - start_time) as int) / (vesting_interval as int))
        },
    }
}

/// The quantity a schedule has vested at a block time: zero up to the start
/// time, the whole total from the end time on, and in between the linear
/// interpolation or the tranches of the elapsed whole intervals, with
/// truncating division.
pub open spec fn spec_vested_amount(s: VestingSchedule, block_time: u64) -> int {
    match s {
        VestingSchedule::LinearVesting { start_time, end_time, vesting_amount } => {
            if block_time <= start_time {
                0
            } else if block_time >= end_time {
                vesting_amount as int
            } else {
                (vesting_amount as int) * ((block_time - start_time) as int) / ((end_time
                    - start_time) as int)
            }
        },
        VestingSchedule::PeriodicVesting { start_time, end_time, vesting_interval, amount } => {
            if block_time <= start_time {
                0
            } else if block_time >= end_time {
                (amount as int) * (((end_time - start_time) as int) / (vesting_interval as int))
            } else {
                (amount as int) * (((block_time - start_time) as int) / (vesting_interval as int))
            }
        },
    }
}

/// Whether evaluating a schedule at a block time stays within the quantity
/// range; outside it the evaluator reports an arithmetic failure.
pub open spec fn spec_vested_ok(s: VestingSchedule, block_time: u64) -> bool {
    match s {
        VestingSchedule::LinearVesting { start_time, end_time, vesting_amount } => {
            ||| block_time <= start_time
            ||| block_time >= end_time
            ||| (vesting_amount as int) * ((block_time - start_time) as int) <= u128::MAX as int
        },
        VestingSchedule::PeriodicVesting { .. } => {
            ||| block_time <= spec_start_time(s)
            ||| spec_vested_amount(s, block_time) <= u128::MAX as int
        },
    }
}

impl VestingSchedule {
    /// Evaluates the schedule at a block time.
    pub fn vested_amount(&self, block_time: u64) -> (r: Result<u128, ContractError>)
        requires
            spec_schedule_evaluable(*self),
        ensures
            spec_vested_ok(*self, block_time) ==> r == Ok::<u128, ContractError>(
                spec_vested_amount(*self, block_time) as u128,
            ),
            !spec_vested_ok(*self, block_time) ==> r == Err::<u128, ContractError>(
                ContractError::ArithmeticError,
            ),
    {
        match self {
            VestingSchedule::LinearVesting { start_time, end_time, vesting_amount } => {
                if block_time <= *start_time {
                    Ok(0)
                } else if block_time >= *end_time {
                    Ok(*vesting_amount)
                } else {
                    let elapsed = (block_time - *start_time) as u128;
                    let span = (*end_time - *start_time) as u128;
                    match vesting_amount.checked_mul(elapsed) {
                        Some(product) => Ok(product / span),
                        None => Err(ContractError::ArithmeticError),
                    }
                }
            },
            VestingSchedule::PeriodicVesting { start_time, end_time, vesting_interval, amount } => {
                if block_time <= *start_time {
                    Ok(0)
                } else if block_time >= *end_time {
                    let num_interval = (*end_time - *start_time) / *vesting_interval;
                    match amount.checked_mul(num_interval as u128) {
                        Some(product) => Ok(product),
                        None => Err(ContractError::ArithmeticError),
                    }
                } else {
                    let passed = (block_time - *start_time) / *vesting_interval;
                    match amount.checked_mul(passed as u128) {
                        Some(product) => Ok(product),
                        None => Err(ContractError::ArithmeticError),
                    }
                }
            },
        }
    }
}

/// Before the start time nothing has vested, whatever the schedule.
pub proof fn lemma_vested_zero_before_start(s: VestingSchedule, t: u64)
    requires
        t <= spec_start_time(s),
    ensures
        spec_vested_amount(s, t) == 0,
{
}

/// From the end time on, the whole total has vested.
pub proof fn lemma_vested_total_after_end(s: VestingSchedule, t: u64)
    requires
        spec_schedule_valid(s),
        t >= spec_end_time(s),
    ensures
        spec_vested_amount(s, t) == spec_schedule_total(s),
{
}

/// The vested quantity never decreases as block time advances.
pub proof fn lemma_vested_monotonic(s: VestingSchedule, t1: u64, t2: u64)
    requires
        spec_schedule_evaluable(s),
        t1 <= t2,
    ensures
        spec_vested_amount(s, t1) <= spec_vested_amount(s, t2),
{
    match s {
        VestingSchedule::LinearVesting { start_time, end_time, vesting_amount } => {
            let v = vesting_amount as int;
            let span = (end_time - start_time) as int;
            if t1 <= start_time {
                lemma_vested_nonnegative(s, t2);
            } else if t1 >= end_time {
            } else {
                let e1 = (t1 - start_time) as int;
                if t2 >= end_time {
                    lemma_mul_inequality(e1, span, v);
                    lemma_mul_is_commutative(e1, v);
                    lemma_mul_is_commutative(span, v);
                    lemma_div_is_ordered(v * e1, v * span, span);
                    lemma_div_multiples_vanish(v, span);
                    lemma_mul_is_commutative(v, span);
                } else {
                    let e2 = (t2 - start_time) as int;
                    lemma_mul_inequality(e1, e2, v);
                    lemma_mul_is_commutative(e1, v);
                    lemma_mul_is_commutative(e2, v);
                    lemma_div_is_ordered(v * e1, v * e2, span);
                }
            }
        },
        VestingSchedule::PeriodicVesting { start_time, end_time, vesting_interval, amount } => {
            let a = amount as int;
            let iv = vesting_interval as int;
            let n = ((end_time - start_time) as int) / iv;
            if t1 <= start_time {
                lemma_vested_nonnegative(s, t2);
            } else if t1 >= end_time {
            } else {
                let k1 = ((t1 - start_time) as int) / iv;
                if t2 >= end_time {
                    lemma_div_is_ordered((t1 - start_time) as int, (end_time - start_time) as int, iv);
                    lemma_mul_inequality(k1, n, a);
                    lemma_mul_is_commutative(k1, a);
                    lemma_mul_is_commutative(n, a);
                } else {
                    let k2 = ((t2 - start_time) as int) / iv;
                    lemma_div_is_ordered((t1 - start_time) as int, (t2 - start_time) as int, iv);
                    lemma_mul_inequality(k1, k2, a);
                    lemma_mul_is_commutative(k1, a);
                    lemma_mul_is_commutative(k2, a);
                }
            }
        },
    }
}

/// The vested quantity is never negative.
pub proof fn lemma_vested_nonnegative(s: VestingSchedule, t: u64)
    requires
        spec_schedule_evaluable(s),
    ensures
        spec_vested_amount(s, t) >= 0,
{
    match s {
        VestingSchedule::LinearVesting { start_time, end_time, vesting_amount } => {
            if t > start_time && t < end_time {
                lemma_mul_is_commutative(vesting_amount as int, (t - start_time) as int);
                lemma_mul_inequality(0, (t - start_time) as int, vesting_amount as int);
                lemma_div_pos_is_pos(
                    (vesting_amount as int) * ((t - start_time) as int),
                    (end_time - start_time) as int,
                );
            }
        },
        VestingSchedule::PeriodicVesting { start_time, end_time, vesting_interval, amount } => {
            if t > start_time {
                let iv = vesting_interval as int;
                if t >= end_time {
                    lemma_div_pos_is_pos((end_time - start_time) as int, iv);
                    lemma_mul_inequality(0, ((end_time - start_time) as int) / iv, amount as int);
                    lemma_mul_is_commutative(((end_time - start_time) as int) / iv, amount as int);
                } else {
                    lemma_div_pos_is_pos((t - start_time) as int, iv);
                    lemma_mul_inequality(0, ((t - start_time) as int) / iv, amount as int);
                    lemma_mul_is_commutative(((t - start_time) as int) / iv, amount as int);
                }
            }
        },
    }
}

/// At every block time the vested quantity lies between zero and the
/// schedule's total.
pub proof fn lemma_vested_bounds(s: VestingSchedule, t: u64)
    requires
        spec_schedule_valid(s),
    ensures
        0 <= spec_vested_amount(s, t),
        spec_vested_amount(s, t) <= spec_schedule_total(s),
{
    lemma_vested_nonnegative(s, t);
    if t <= spec_end_time(s) {
        lemma_vested_monotonic(s, t, spec_end_time(s));
        lemma_vested_total_after_end(s, spec_end_time(s));
    } else {
        lemma_vested_total_after_end(s, t);
    }
}

/// A linear schedule vests nothing at exactly its start time and its whole
/// amount at exactly its end time.
pub proof fn lemma_linear_boundaries(start_time: u64, end_time: u64, vesting_amount: u128)
    requires
        spec_schedule_valid(
            VestingSchedule::LinearVesting { start_time, end_time, vesting_amount },
        ),
    ensures
        spec_vested_amount(
            VestingSchedule::LinearVesting { start_time, end_time, vesting_amount },
            start_time,
        ) == 0,
        spec_vested_amount(
            VestingSchedule::LinearVesting { start_time, end_time, vesting_amount },
            end_time,
        ) == vesting_amount,
{
}

/// A periodic schedule vests exactly `amount * k` at the end of the `k`-th
/// interval, for every `k` up to the interval count.
pub proof fn lemma_periodic_at_interval(
    start_time: u64,
    end_time: u64,
    vesting_interval: u64,
    amount: u128,
    k: int,
    t: u64,
)
    requires
        spec_schedule_valid(
            VestingSchedule::PeriodicVesting { start_time, end_time, vesting_interval, amount },
        ),
        0 <= k <= ((end_time - start_time) as int) / (vesting_interval as int),
        t == start_time + k * (vesting_interval as int),
    ensures
        spec_vested_amount(
            VestingSchedule::PeriodicVesting { start_time, end_time, vesting_interval, amount },
            t,
        ) == (amount as int) * k,
{
    let iv = vesting_interval as int;
    let span = (end_time - start_time) as int;
    let n = span / iv;
    lemma_fundamental_div_mod(span, iv);
    if k == 0 {
    } else {
        lemma_mul_inequality(1, k, iv);
        lemma_mul_is_commutative(1, iv);
        lemma_mul_is_commutative(k, iv);
        assert(t > start_time);
        if k == n {
            assert(t == end_time);
        } else {
            lemma_mul_inequality(k, n, iv);
            lemma_mul_is_commutative(n, iv);
            assert(k * iv <= n * iv);
            assert(t <= end_time);
            assert(t != end_time) by {
                if t == end_time {
                    assert(k * iv == span);
                    lemma_div_multiples_vanish(k, iv);
                    assert(span / iv == k);
                }
            }
            assert((t - start_time) as int == iv * k) by {
                lemma_mul_is_commutative(k, iv);
            }
            lemma_div_multiples_vanish(k, iv);
        }
    }
}

/// The three mutating operations of the engine.
#[derive(Clone, Debug, PartialEq, Eq)]
pub enum ExecuteMsg {
    /// Lock the attached deposit for a beneficiary under a schedule.
    RegisterVestingAccount {
        master_address: String,
        address: String,
        vesting_schedule: VestingSchedule,
    },
    /// Remove the sender's account for a denomination; the vested remainder
    /// goes to the sender or the chosen recipient, the unvested one to the
    /// master address.
    DeregisterVestingAccount { denom: String, vested_token_recipient: Option<String> },
    /// Withdraw the vested, unclaimed quantity of each listed denomination.
    Claim { denoms: Vec<String>, recipient: Option<String> },
}

/// The read-only operations of the engine.
#[derive(Clone, Debug, PartialEq, Eq)]
pub enum QueryMsg {
    /// List a beneficiary's accounts, ascending by tagged denomination key.
    VestingAccount { address: String, start_after: Option<Denom>, limit: Option<u32> },
    /// The per-denom aggregate of quantities still in custody.
    VestedTokens { denom: String },
}

/// Privileged host messages.
#[derive(Clone, Debug, PartialEq, Eq)]
pub enum SudoMsg {
    UpdateVestingContract { address: String },
}

/// One entry of a vesting-account listing, with the vested and claimable
/// quantities computed at the query's block time.
#[derive(Clone, Debug, PartialEq, Eq)]
pub struct VestingData {
    pub master_address: String,
    pub vesting_denom: String,
    pub vesting_amount: u128,
    pub vested_amount: u128,
    pub vesting_schedule: VestingSchedule,
    pub claimable_amount: u128,
}

/// The spec-level value of a listing entry.
#[verifier::ext_equal]
pub ghost struct VestingDataV {
    pub master_address: Seq<char>,
    pub vesting_denom: Seq<char>,
    pub vesting_amount: int,
    pub vested_amount: int,
    pub vesting_schedule: VestingSchedule,
    pub claimable_amount: int,
}

impl View for VestingData {
    type V = VestingDataV;

    open spec fn view(&self) -> VestingDataV {
        VestingDataV {
            master_address: self.master_address@,
            vesting_denom: self.vesting_denom@,
            vesting_amount: self.vesting_amount as int,
            vested_amount: self.vested_amount as int,
            vesting_schedule: self.vesting_schedule,
            claimable_amount: self.claimable_amount as int,
        }
    }
}

/// The spec-level values of a list of entries.
pub open spec fn vesting_datas_view(v: Seq<VestingData>) -> Seq<VestingDataV> {
    Seq::new(v.len(), |i: int| v[i]@)
}

/// The answer of a vesting-account listing.
#[derive(Clone, Debug, PartialEq, Eq)]
pub struct VestingAccountResponse {
    pub address: String,
    pub vestings: Vec<VestingData>,
}

/// The spec-level value of a listing answer.
#[verifier::ext_equal]
pub ghost struct VestingAccountResponseV {
    pub address: Seq<char>,
    pub vestings: Seq<VestingDataV>,
}

impl View for VestingAccountResponse {
    type V = VestingAccountResponseV;

    open spec fn view(&self) -> VestingAccountResponseV {
        VestingAccountResponseV { address: self.address@, vestings: vesting_datas_view(self.vestings@) }
    }
}

/// The answer of a query.
#[derive(Clone, Debug, PartialEq, Eq)]
pub enum QueryResponse {
    VestingAccount(VestingAccountResponse),
    VestedTokens(u128),
}

/// The spec-level value of a query answer.
pub ghost enum QueryResponseV {
    VestingAccount(VestingAccountResponseV),
    VestedTokens(int),
}

impl View for QueryResponse {
    type V = QueryResponseV;

    open spec fn view(&self) -> QueryResponseV {
        match self {
            QueryResponse::VestingAccount(resp) => QueryResponseV::VestingAccount(resp@),
            QueryResponse::VestedTokens(amount) => QueryResponseV::VestedTokens(*amount as int),
        }
    }
}

} // verus!
