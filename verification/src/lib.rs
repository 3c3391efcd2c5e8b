//! Yi: a primitive for auto-compounding, single-token staking pools.
//!
//! A vault accepts deposits of an underlying token and issues shares (Yi tokens) that are a
//! proportional claim on the pooled balance. Rewards sent straight to the pool raise the
//! exchange rate for every holder.
//!
//! The crate holds the exchange-rate arithmetic ([`YiToken`]), the account checks made before
//! every operation, and the planning of the token movements each operation performs. Moving
//! the tokens themselves is left to the host: every operation returns the list of
//! [`TokenInstruction`]s to issue, in order.

use vstd::prelude::*;

pub mod accounts;
pub mod instructions;
pub mod laws;
pub mod layout;
pub mod state;

pub use accounts::{planned, Address, Mint, TokenAccount, TokenInstruction};
pub use instructions::create_yi_token::CreateYiToken;
pub use instructions::stake::Stake;
pub use instructions::unstake::Unstake;
pub use state::YiToken;

verus! {

/// Number of millibps in 1.
pub const MILLIBPS_PER_WHOLE: u32 = 10_000_000;

/// Errors.
#[derive(Clone, Copy, Debug, PartialEq, Eq, Structural)]
pub enum ErrorCode {
    /// The underlying mint and the Yi mint have different decimals.
    DecimalMismatch,
    /// Stake fee cannot exceed 100%.
    InvalidStakeFee,
    /// Unstake fee cannot exceed 100%.
    InvalidUnstakeFee,
    /// An account is not bound to the vault as required, or is not in the state required.
    InvalidAccountState,
    /// A conversion does not fit in 64 bits, or more Yi tokens are redeemed than exist.
    ArithmeticOverflow,
}

/// The outcome of creating a vault: the first check that fails, or the record.
pub open spec fn creation(
    accounts: &CreateYiToken,
    stake_fee_millibps: u32,
    unstake_fee_millibps: u32,
) -> Result<YiToken, ErrorCode> {
    match accounts.validation() {
        Err(error) => Err(error),
        Ok(_) => instructions::create_yi_token::created(
            accounts,
            accounts.bump,
            stake_fee_millibps,
            unstake_fee_millibps,
        ),
    }
}

/// The outcome of a stake: a refusal of the accounts, or what the handler plans.
pub open spec fn staking(accounts: &Stake, amount: u64) -> Result<Seq<TokenInstruction>, ErrorCode> {
    if !accounts.is_bound() {
        Err(ErrorCode::InvalidAccountState)
    } else {
        instructions::stake::handled(accounts, amount)
    }
}

/// The outcome of an unstake: a refusal of the accounts, or what the handler plans.
pub open spec fn unstaking(accounts: &Unstake, amount: u64) -> Result<Seq<TokenInstruction>, ErrorCode> {
    if !accounts.is_bound() {
        Err(ErrorCode::InvalidAccountState)
    } else {
        instructions::unstake::handled(accounts, amount)
    }
}

/// Creates a [YiToken] without fees.
pub fn create_yi_token(accounts: &CreateYiToken) -> (outcome: Result<YiToken, ErrorCode>)
    ensures
        outcome == creation(accounts, 0, 0),
        outcome is Ok <==> accounts.is_valid(),
{
    match accounts.validate() {
        Err(error) => Err(error),
        Ok(_) => instructions::create_yi_token::handler(accounts, accounts.bump, 0, 0),
    }
}

/// Creates a [YiToken] with fees which accrue to the [YiToken] holders.
/// Fees cannot be modified after the [YiToken] is created.
///
/// Over valid accounts the creation succeeds exactly when both fees are at most
/// [MILLIBPS_PER_WHOLE]; a stake fee above it is refused as
/// [ErrorCode::InvalidStakeFee], otherwise an unstake fee above it as
/// [ErrorCode::InvalidUnstakeFee].
pub fn create_yi_token_with_fees(
    accounts: &CreateYiToken,
    stake_fee_millibps: u32,
    unstake_fee_millibps: u32,
) -> (outcome: Result<YiToken, ErrorCode>)
    ensures
        outcome == creation(accounts, stake_fee_millibps, unstake_fee_millibps),
        outcome is Ok <==> accounts.is_valid() && stake_fee_millibps <= MILLIBPS_PER_WHOLE
            && unstake_fee_millibps <= MILLIBPS_PER_WHOLE,
        accounts.is_valid() && stake_fee_millibps > MILLIBPS_PER_WHOLE ==> outcome == Err::<
            YiToken,
            ErrorCode,
        >(ErrorCode::InvalidStakeFee),
        accounts.is_valid() && stake_fee_millibps <= MILLIBPS_PER_WHOLE && unstake_fee_millibps
            > MILLIBPS_PER_WHOLE ==> outcome == Err::<YiToken, ErrorCode>(
            ErrorCode::InvalidUnstakeFee,
        ),
        outcome is Ok ==> outcome->Ok_0.wf(),
{
    match accounts.validate() {
        Err(error) => Err(error),
        Ok(_) => instructions::create_yi_token::handler(
            accounts,
            accounts.bump,
            stake_fee_millibps,
            unstake_fee_millibps,
        ),
    }
}

/// Stakes underlying tokens for Yi tokens: the instructions to issue, in order.
pub fn stake(accounts: &Stake, amount: u64) -> (outcome: Result<Vec<TokenInstruction>, ErrorCode>)
    ensures
        planned(outcome) == staking(accounts, amount),
{
    match accounts.validate() {
        Err(error) => Err(error),
        Ok(_) => instructions::stake::handler(accounts, amount),
    }
}

/// Unstakes Yi tokens for their underlying tokens: the instructions to issue, in order.
pub fn unstake(accounts: &Unstake, amount: u64) -> (outcome: Result<Vec<TokenInstruction>, ErrorCode>)
    ensures
        planned(outcome) == unstaking(accounts, amount),
{
    match accounts.validate() {
        Err(error) => Err(error),
        Ok(_) => instructions::unstake::handler(accounts, amount),
    }
}

} // verus!
