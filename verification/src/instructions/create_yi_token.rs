//! Creation of a vault.

use vstd::prelude::*;

use crate::accounts::{is_address, Address, Mint, TokenAccount};
use crate::state::YiToken;
use crate::ErrorCode;
use crate::MILLIBPS_PER_WHOLE;

verus! {

/// Accounts for the creation of a [YiToken].
#[derive(Clone, Copy, Debug)]
pub struct CreateYiToken {
    /// The mint of the [YiToken].
    pub mint: Mint,
    /// Address of the [YiToken] to be created: the authority derived for the vault from
    /// its tag, the mint's address and [Self::bump].
    pub yi_token: Address,
    /// The bump seed that the address of the [YiToken] was derived with.
    pub bump: u8,
    /// [YiToken::underlying_token_mint].
    pub underlying_token_mint: Mint,
    /// [YiToken::underlying_tokens].
    pub underlying_tokens: TokenAccount,
}

impl CreateYiToken {
    /// Only the vault can issue or freeze Yi tokens, and none has been issued.
    pub open spec fn mint_is_fresh(&self) -> bool {
        &&& self.mint.mint_authority == Some(self.yi_token)
        &&& self.mint.freeze_authority == Some(self.yi_token)
        &&& self.mint.supply == 0
    }

    /// The underlying mint and the Yi mint count in the same decimals.
    pub open spec fn decimals_match(&self) -> bool {
        self.underlying_token_mint.decimals == self.mint.decimals
    }

    /// The pool is empty, belongs to the vault alone, and holds the underlying token.
    pub open spec fn pool_is_fresh(&self) -> bool {
        &&& self.underlying_tokens.is_zero()
        &&& self.underlying_tokens.owner == self.yi_token
        &&& self.underlying_tokens.mint == self.underlying_token_mint.key
    }

    /// The accounts are fit for a new vault.
    pub open spec fn is_valid(&self) -> bool {
        &&& self.mint_is_fresh()
        &&& self.decimals_match()
        &&& self.pool_is_fresh()
    }

    /// The outcome of the checks, which are made in this order: the Yi mint, the decimals,
    /// the pool.
    pub open spec fn validation(&self) -> Result<(), ErrorCode> {
        if !self.mint_is_fresh() {
            Err(ErrorCode::InvalidAccountState)
        } else if !self.decimals_match() {
            Err(ErrorCode::DecimalMismatch)
        } else if !self.pool_is_fresh() {
            Err(ErrorCode::InvalidAccountState)
        } else {
            Ok(())
        }
    }

    /// The record of the vault created over these accounts with the given bump and fees.
    pub open spec fn record(&self, bump: u8, stake_fee_millibps: u32, unstake_fee_millibps: u32) -> YiToken {
        YiToken {
            mint: self.mint.key,
            bump,
            _padding: vstd::array::spec_array_fill_for_copy_type::<u8, 7>(0u8),
            underlying_token_mint: self.underlying_token_mint.key,
            underlying_tokens: self.underlying_tokens.key,
            stake_fee_millibps,
            unstake_fee_millibps,
        }
    }

    /// Checks the accounts of a vault that is about to be created.
    pub fn validate(&self) -> (outcome: Result<(), ErrorCode>)
        ensures
            outcome == self.validation(),
            outcome is Ok <==> self.is_valid(),
    {
        if !is_address(&self.mint.mint_authority, &self.yi_token) {
            return Err(ErrorCode::InvalidAccountState);
        }
        if !is_address(&self.mint.freeze_authority, &self.yi_token) {
            return Err(ErrorCode::InvalidAccountState);
        }
        if self.mint.supply != 0 {
            return Err(ErrorCode::InvalidAccountState);
        }
        if self.underlying_token_mint.decimals != self.mint.decimals {
            return Err(ErrorCode::DecimalMismatch);
        }
        if !self.underlying_tokens.is_zero_token_account() {
            return Err(ErrorCode::InvalidAccountState);
        }
        if !self.underlying_tokens.owner.same(&self.yi_token) {
            return Err(ErrorCode::InvalidAccountState);
        }
        if !self.underlying_tokens.mint.same(&self.underlying_token_mint.key) {
            return Err(ErrorCode::InvalidAccountState);
        }
        Ok(())
    }

    /// Builds the record of the new vault. A fee above 100% is refused, the stake fee first.
    pub fn create_yi_token(&self, bump: u8, stake_fee_millibps: u32, unstake_fee_millibps: u32) -> (outcome:
        Result<YiToken, ErrorCode>)
        ensures
            outcome == created(self, bump, stake_fee_millibps, unstake_fee_millibps),
            outcome is Ok ==> outcome->Ok_0.wf(),
    {
        if stake_fee_millibps > MILLIBPS_PER_WHOLE {
            return Err(ErrorCode::InvalidStakeFee);
        }
        if unstake_fee_millibps > MILLIBPS_PER_WHOLE {
            return Err(ErrorCode::InvalidUnstakeFee);
        }
        Ok(
            YiToken {
                mint: self.mint.key,
                bump,
                _padding: [0u8; 7],
                underlying_token_mint: self.underlying_token_mint.key,
                underlying_tokens: self.underlying_tokens.key,
                stake_fee_millibps,
                unstake_fee_millibps,
            },
        )
    }
}

/// The record created for the given fees, or the fee that is refused.
pub open spec fn created(
    accounts: &CreateYiToken,
    bump: u8,
    stake_fee_millibps: u32,
    unstake_fee_millibps: u32,
) -> Result<YiToken, ErrorCode> {
    if stake_fee_millibps > MILLIBPS_PER_WHOLE {
        Err(ErrorCode::InvalidStakeFee)
    } else if unstake_fee_millibps > MILLIBPS_PER_WHOLE {
        Err(ErrorCode::InvalidUnstakeFee)
    } else {
        Ok(accounts.record(bump, stake_fee_millibps, unstake_fee_millibps))
    }
}

/// Creates the record of a [YiToken] over accounts that were validated.
pub fn handler(accounts: &CreateYiToken, bump: u8, stake_fee_millibps: u32, unstake_fee_millibps: u32) -> (outcome:
    Result<YiToken, ErrorCode>)
    ensures
        outcome == created(accounts, bump, stake_fee_millibps, unstake_fee_millibps),
        outcome is Ok <==> stake_fee_millibps <= MILLIBPS_PER_WHOLE && unstake_fee_millibps
            <= MILLIBPS_PER_WHOLE,
        outcome is Ok ==> outcome->Ok_0.wf(),
{
    accounts.create_yi_token(bump, stake_fee_millibps, unstake_fee_millibps)
}

} // verus!
