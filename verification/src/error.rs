//! The error taxonomy of the engine. Every failure aborts the enclosing
//! operation; the host discards the transaction.

use vstd::prelude::*;
use vstd::string::*;

use crate::text::json_string;
use crate::text::json_string_of;

verus! {

/// The reason a vesting schedule was rejected at registration.
#[derive(Clone, Copy, Debug, PartialEq, Eq)]
pub enum ScheduleViolation {
    /// Linear: the deposit differs from the vesting amount.
    LinearDepositMismatch,
    /// Linear: the start time lies before the block time.
    LinearStartBeforeBlockTime,
    /// Linear: the end time does not lie after the start time.
    LinearEndNotAfterStart,
    /// Periodic: the per-interval amount is zero.
    PeriodicZeroAmount,
    /// Periodic: the start time lies before the block time.
    PeriodicStartBeforeBlockTime,
    /// Periodic: the end time does not lie after the start time.
    PeriodicEndNotAfterStart,
    /// Periodic: the vesting interval is zero.
    PeriodicZeroInterval,
    /// Periodic: the vesting period is not a multiple of the interval.
    PeriodicIntervalMisaligned,
    /// Periodic: the deposit differs from amount times the interval count.
    PeriodicDepositMismatch,
}

/// A failure of one of the engine's operations.
#[derive(Clone, Debug, PartialEq, Eq)]
pub enum ContractError {
    /// Register: the attached funds are not exactly one denomination.
    InvalidFunds,
    /// Register: the attached deposit is zero.
    ZeroDeposit,
    /// Claim or deregister: funds were attached.
    FundsNotAllowed,
    /// An address did not pass validation.
    InvalidAddress,
    /// Register: an account for the pair already exists.
    AlreadyExists,
    /// Register: a schedule precondition failed.
    InvalidSchedule(ScheduleViolation),
    /// Claim or deregister: no account exists for the denomination.
    NotFound { denom: String },
    /// The per-denom aggregate was missing where an account exists.
    InconsistentState,
    /// A checked add, sub, mul or div failed.
    ArithmeticError,
    /// Migrate: the stored contract name differs.
    MigrationContractMismatch,
    /// Migrate: the stored version exceeds the current one.
    MigrationVersionTooNew,
}

/// The spec-level value of an error: the denomination a `NotFound` carries
/// is taken to its character sequence.
pub ghost enum ErrorV {
    InvalidFunds,
    ZeroDeposit,
    FundsNotAllowed,
    InvalidAddress,
    AlreadyExists,
    InvalidSchedule(ScheduleViolation),
    NotFound { denom: Seq<char> },
    InconsistentState,
    ArithmeticError,
    MigrationContractMismatch,
    MigrationVersionTooNew,
}

impl View for ContractError {
    type V = ErrorV;

    open spec fn view(&self) -> ErrorV {
        match self {
            ContractError::InvalidFunds => ErrorV::InvalidFunds,
            ContractError::ZeroDeposit => ErrorV::ZeroDeposit,
            ContractError::FundsNotAllowed => ErrorV::FundsNotAllowed,
            ContractError::InvalidAddress => ErrorV::InvalidAddress,
            ContractError::AlreadyExists => ErrorV::AlreadyExists,
            ContractError::InvalidSchedule(v) => ErrorV::InvalidSchedule(*v),
            ContractError::NotFound { denom } => ErrorV::NotFound { denom: denom@ },
            ContractError::InconsistentState => ErrorV::InconsistentState,
            ContractError::ArithmeticError => ErrorV::ArithmeticError,
            ContractError::MigrationContractMismatch => ErrorV::MigrationContractMismatch,
            ContractError::MigrationVersionTooNew => ErrorV::MigrationVersionTooNew,
        }
    }
}

/// The human-readable message of a schedule violation.
pub open spec fn spec_violation_message(v: ScheduleViolation) -> Seq<char> {
    match v {
        ScheduleViolation::LinearDepositMismatch => "assert(deposit_amount == vesting_amount)"@,
        ScheduleViolation::LinearStartBeforeBlockTime => "assert(start_time < block_time)"@,
        ScheduleViolation::LinearEndNotAfterStart => "assert(end_time <= start_time)"@,
        ScheduleViolation::PeriodicZeroAmount => "cannot make zero token vesting account"@,
        ScheduleViolation::PeriodicStartBeforeBlockTime => "invalid start_time"@,
        ScheduleViolation::PeriodicEndNotAfterStart => "assert(end_time > start_time)"@,
        ScheduleViolation::PeriodicZeroInterval => "assert(vesting_interval != 0)"@,
        ScheduleViolation::PeriodicIntervalMisaligned => "assert((end_time - start_time) % vesting_interval == 0)"@,
        ScheduleViolation::PeriodicDepositMismatch => "assert(deposit_amount = amount * ((end_time - start_time) / vesting_interval))"@,
    }
}

/// The human-readable message of an error.
pub open spec fn spec_error_message(e: ErrorV) -> Seq<char> {
    match e {
        ErrorV::InvalidFunds => "must deposit only one type of token"@,
        ErrorV::ZeroDeposit => "assert(funds > 0)"@,
        ErrorV::FundsNotAllowed => "Funds not allowed."@,
        ErrorV::InvalidAddress => "Invalid input: human address too short"@,
        ErrorV::AlreadyExists => "already exists"@,
        ErrorV::InvalidSchedule(v) => spec_violation_message(v),
        ErrorV::NotFound { denom } => "vesting entry is not found for denom "@ + json_string_of(
            denom,
        ),
        ErrorV::InconsistentState => "vested amount for the denom is not recorded"@,
        ErrorV::ArithmeticError => "checked arithmetic failed"@,
        ErrorV::MigrationContractMismatch => "Can only upgrade from same type"@,
        ErrorV::MigrationVersionTooNew => "Cannot upgrade from a newer version"@,
    }
}

impl ScheduleViolation {
    /// The message text of this violation.
    pub fn message(&self) -> (r: String)
        ensures
            r@ == spec_violation_message(*self),
    {
        match self {
            ScheduleViolation::LinearDepositMismatch => String::from_str(
                "assert(deposit_amount == vesting_amount)",
            ),
            ScheduleViolation::LinearStartBeforeBlockTime => String::from_str(
                "assert(start_time < block_time)",
            ),
            ScheduleViolation::LinearEndNotAfterStart => String::from_str(
                "assert(end_time <= start_time)",
            ),
            ScheduleViolation::PeriodicZeroAmount => String::from_str(
                "cannot make zero token vesting account",
            ),
            ScheduleViolation::PeriodicStartBeforeBlockTime => String::from_str(
                "invalid start_time",
            ),
            ScheduleViolation::PeriodicEndNotAfterStart => String::from_str(
                "assert(end_time > start_time)",
            ),
            ScheduleViolation::PeriodicZeroInterval => String::from_str(
                "assert(vesting_interval != 0)",
            ),
            ScheduleViolation::PeriodicIntervalMisaligned => String::from_str(
                "assert((end_time - start_time) % vesting_interval == 0)",
            ),
            ScheduleViolation::PeriodicDepositMismatch => String::from_str(
                "assert(deposit_amount = amount * ((end_time - start_time) / vesting_interval))",
            ),
        }
    }
}

impl ContractError {
    /// The message text of this error, as the host reports it.
    pub fn message(&self) -> (r: String)
        ensures
            r@ == spec_error_message(self@),
    {
        match self {
            ContractError::InvalidFunds => String::from_str("must deposit only one type of token"),
            ContractError::ZeroDeposit => String::from_str("assert(funds > 0)"),
            ContractError::FundsNotAllowed => String::from_str("Funds not allowed."),
            ContractError::InvalidAddress => String::from_str(
                "Invalid input: human address too short",
            ),
            ContractError::AlreadyExists => String::from_str("already exists"),
            ContractError::InvalidSchedule(v) => v.message(),
            ContractError::NotFound { denom } => {
                let mut m = String::from_str("vesting entry is not found for denom ");
                let quoted = json_string(denom);
                m.append(quoted.as_str());
                m
            },
            ContractError::InconsistentState => String::from_str(
                "vested amount for the denom is not recorded",
            ),
            ContractError::ArithmeticError => String::from_str("checked arithmetic failed"),
            ContractError::MigrationContractMismatch => String::from_str(
                "Can only upgrade from same type",
            ),
            ContractError::MigrationVersionTooNew => String::from_str(
                "Cannot upgrade from a newer version",
            ),
        }
    }
}

} // verus!
