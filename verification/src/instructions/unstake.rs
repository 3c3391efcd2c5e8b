//! Unstaking: Yi tokens in, underlying tokens out.

use vstd::prelude::*;

use crate::accounts::{planned, Address, Mint, TokenAccount, TokenInstruction};
use crate::state::YiToken;
use crate::ErrorCode;

verus! {

/// Accounts for an unstake.
#[derive(Clone, Copy, Debug)]
pub struct Unstake {
    /// Address of the [YiToken] to unstake tokens from: the authority the vault signs as.
    pub yi_token_key: Address,
    /// The [YiToken] to unstake tokens from.
    pub yi_token: YiToken,
    /// [YiToken::mint]. Mint of the [YiToken].
    pub yi_mint: Mint,
    /// [YiToken]s to be burned.
    pub source_yi_tokens: TokenAccount,
    /// The signer of the operation, who must own [Self::source_yi_tokens].
    pub source_authority: Address,
    /// [YiToken::underlying_tokens].
    pub yi_underlying_tokens: TokenAccount,
    /// The token account receiving the underlying tokens.
    pub destination_underlying_tokens: TokenAccount,
}

impl Unstake {
    /// Every account supplied is the one the vault record binds, or holds the right mint.
    pub open spec fn is_bound(&self) -> bool {
        &&& self.yi_mint.key == self.yi_token.mint
        &&& self.source_yi_tokens.mint == self.yi_mint.key
        &&& self.source_authority == self.source_yi_tokens.owner
        &&& self.yi_underlying_tokens.key == self.yi_token.underlying_tokens
        &&& self.destination_underlying_tokens.mint == self.yi_token.underlying_token_mint
    }

    /// The burning of `yitoken_amount` Yi tokens out of the unstaker's account.
    pub open spec fn burn(&self, yitoken_amount: u64) -> TokenInstruction {
        TokenInstruction::Burn {
            mint: self.yi_mint.key,
            from: self.source_yi_tokens.key,
            authority: self.source_authority,
            amount: yitoken_amount,
            signed_by_vault: false,
        }
    }

    /// The transfer of `amount` underlying tokens out of the pool, signed by the vault.
    pub open spec fn withdrawal(&self, amount: u64) -> TokenInstruction {
        TokenInstruction::Transfer {
            from: self.yi_underlying_tokens.key,
            to: self.destination_underlying_tokens.key,
            authority: self.yi_token_key,
            amount,
            signed_by_vault: true,
        }
    }

    /// What unstaking `yitoken_amount` asks of the host: the burn, then the withdrawal of
    /// the underlying tokens that the Yi tokens were worth at the rate that held before it.
    pub open spec fn plan(&self, yitoken_amount: u64) -> Result<Seq<TokenInstruction>, ErrorCode> {
        match self.yi_token.underlying_for_yitokens(
            yitoken_amount,
            self.yi_underlying_tokens.amount,
            self.yi_mint.supply,
        ) {
            Some(withdraw_amount) => Ok(
                seq![self.burn(yitoken_amount), self.withdrawal(withdraw_amount)],
            ),
            None => Err(ErrorCode::ArithmeticOverflow),
        }
    }

    /// Checks the accounts against the vault record.
    pub fn validate(&self) -> (outcome: Result<(), ErrorCode>)
        ensures
            outcome == if self.is_bound() {
                Ok::<(), ErrorCode>(())
            } else {
                Err(ErrorCode::InvalidAccountState)
            },
    {
        if !self.yi_mint.key.same(&self.yi_token.mint) {
            return Err(ErrorCode::InvalidAccountState);
        }
        if !self.source_yi_tokens.mint.same(&self.yi_mint.key) {
            return Err(ErrorCode::InvalidAccountState);
        }
        if !self.source_authority.same(&self.source_yi_tokens.owner) {
            return Err(ErrorCode::InvalidAccountState);
        }
        if !self.yi_underlying_tokens.key.same(&self.yi_token.underlying_tokens) {
            return Err(ErrorCode::InvalidAccountState);
        }
        if !self.destination_underlying_tokens.mint.same(&self.yi_token.underlying_token_mint) {
            return Err(ErrorCode::InvalidAccountState);
        }
        Ok(())
    }

    /// The transfer that pays `amount` underlying tokens out of the pool.
    pub fn withdraw_underlying(&self, amount: u64) -> (instruction: TokenInstruction)
        ensures
            instruction == self.withdrawal(amount),
    {
        TokenInstruction::Transfer {
            from: self.yi_underlying_tokens.key,
            to: self.destination_underlying_tokens.key,
            authority: self.yi_token_key,
            amount,
            signed_by_vault: true,
        }
    }

    /// The burning of `yitoken_amount` Yi tokens out of the source.
    pub fn burn_yi_tokens(&self, yitoken_amount: u64) -> (instruction: TokenInstruction)
        ensures
            instruction == self.burn(yitoken_amount),
    {
        TokenInstruction::Burn {
            mint: self.yi_mint.key,
            from: self.source_yi_tokens.key,
            authority: self.source_authority,
            amount: yitoken_amount,
            signed_by_vault: false,
        }
    }

    /// Plans an unstake of `yitoken_amount`. The pool's balance and the mint's supply are read
    /// as these accounts hold them, that is as they stood before the burn.
    pub fn unstake(&self, yitoken_amount: u64) -> (outcome: Result<Vec<TokenInstruction>, ErrorCode>)
        ensures
            planned(outcome) == self.plan(yitoken_amount),
    {
        let burn = self.burn_yi_tokens(yitoken_amount);
        match self.yi_token.calculate_underlying_for_yitokens(
            yitoken_amount,
            self.yi_underlying_tokens.amount,
            self.yi_mint.supply,
        ) {
            Some(withdraw_amount) => {
                let withdrawal = self.withdraw_underlying(withdraw_amount);
                Ok(vec![burn, withdrawal])
            },
            None => Err(ErrorCode::ArithmeticOverflow),
        }
    }
}

/// What an unstake of `yitoken_amount` asks of the host: nothing where the amount is zero.
pub open spec fn handled(accounts: &Unstake, yitoken_amount: u64) -> Result<Seq<TokenInstruction>, ErrorCode> {
    if yitoken_amount == 0 {
        Ok(Seq::empty())
    } else {
        accounts.plan(yitoken_amount)
    }
}

/// Unstakes `yitoken_amount` Yi tokens: an unstake of nothing moves nothing.
pub fn handler(accounts: &Unstake, yitoken_amount: u64) -> (outcome: Result<Vec<TokenInstruction>, ErrorCode>)
    ensures
        planned(outcome) == handled(accounts, yitoken_amount),
        yitoken_amount == 0 ==> outcome is Ok && outcome->Ok_0@.len() == 0,
{
    // short circuit if no amount specified
    if yitoken_amount == 0 {
        return Ok(Vec::new());
    }
    accounts.unstake(yitoken_amount)
}

} // verus!
