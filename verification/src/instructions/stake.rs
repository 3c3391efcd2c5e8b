//! Staking: underlying tokens in, Yi tokens out.

use vstd::prelude::*;

use crate::accounts::{planned, Address, Mint, TokenAccount, TokenInstruction};
use crate::state::YiToken;
use crate::ErrorCode;

verus! {

/// Accounts for a stake.
#[derive(Clone, Copy, Debug)]
pub struct Stake {
    /// Address of the [YiToken] to stake tokens into: the authority the vault signs as.
    pub yi_token_key: Address,
    /// The [YiToken] to stake tokens into.
    pub yi_token: YiToken,
    /// [YiToken::mint]. Mint of the [YiToken].
    pub yi_mint: Mint,
    /// Tokens to be staked into the [YiToken].
    pub source_tokens: TokenAccount,
    /// The signer of the operation, who must own [Self::source_tokens].
    pub source_authority: Address,
    /// [YiToken::underlying_tokens].
    pub yi_underlying_tokens: TokenAccount,
    /// The token account receiving the minted [YiToken]s.
    pub destination_yi_tokens: TokenAccount,
}

impl Stake {
    /// Every account supplied is the one the vault record binds, or holds the right mint.
    pub open spec fn is_bound(&self) -> bool {
        &&& self.yi_mint.key == self.yi_token.mint
        &&& self.source_tokens.mint == self.yi_token.underlying_token_mint
        &&& self.source_authority == self.source_tokens.owner
        &&& self.yi_underlying_tokens.key == self.yi_token.underlying_tokens
        &&& self.destination_yi_tokens.mint == self.yi_token.mint
    }

    /// The transfer of `amount` underlying tokens from the staker into the pool.
    pub open spec fn deposit(&self, amount: u64) -> TokenInstruction {
        TokenInstruction::Transfer {
            from: self.source_tokens.key,
            to: self.yi_underlying_tokens.key,
            authority: self.source_authority,
            amount,
            signed_by_vault: false,
        }
    }

    /// The minting of `amount` Yi tokens to the staker, signed by the vault.
    pub open spec fn mint(&self, amount: u64) -> TokenInstruction {
        TokenInstruction::MintTo {
            mint: self.yi_mint.key,
            to: self.destination_yi_tokens.key,
            authority: self.yi_token_key,
            amount,
            signed_by_vault: true,
        }
    }

    /// What staking `underlying_amount` asks of the host: the deposit, then the minting of
    /// the Yi tokens that the deposit is worth at the rate that held before it.
    pub open spec fn plan(&self, underlying_amount: u64) -> Result<Seq<TokenInstruction>, ErrorCode> {
        match self.yi_token.yitokens_for_underlying(
            underlying_amount,
            self.yi_underlying_tokens.amount,
            self.yi_mint.supply,
        ) {
            Some(mint_amount) => Ok(seq![self.deposit(underlying_amount), self.mint(mint_amount)]),
            None => Err(ErrorCode::ArithmeticOverflow),
        }
    }

    /// Checks the accounts against the vault record.
    pub fn validate(&self) -> (outcome: Result<(), ErrorCode>)
        ensures
            outcome == if self.is_bound() {
                Ok::<(), ErrorCode>(())
            } else {
                Err(ErrorCode::InvalidAccountState)
            },
    {
        if !self.yi_mint.key.same(&self.yi_token.mint) {
            return Err(ErrorCode::InvalidAccountState);
        }
        if !self.source_tokens.mint.same(&self.yi_token.underlying_token_mint) {
            return Err(ErrorCode::InvalidAccountState);
        }
        if !self.source_authority.same(&self.source_tokens.owner) {
            return Err(ErrorCode::InvalidAccountState);
        }
        if !self.yi_underlying_tokens.key.same(&self.yi_token.underlying_tokens) {
            return Err(ErrorCode::InvalidAccountState);
        }
        if !self.destination_yi_tokens.mint.same(&self.yi_token.mint) {
            return Err(ErrorCode::InvalidAccountState);
        }
        Ok(())
    }

    /// The transfer that deposits `amount` underlying tokens into the pool.
    pub fn deposit_underlying(&self, amount: u64) -> (instruction: TokenInstruction)
        ensures
            instruction == self.deposit(amount),
    {
        TokenInstruction::Transfer {
            from: self.source_tokens.key,
            to: self.yi_underlying_tokens.key,
            authority: self.source_authority,
            amount,
            signed_by_vault: false,
        }
    }

    /// The minting of `amount` Yi tokens to the destination.
    pub fn mint_yi_tokens(&self, amount: u64) -> (instruction: TokenInstruction)
        ensures
            instruction == self.mint(amount),
    {
        TokenInstruction::MintTo {
            mint: self.yi_mint.key,
            to: self.destination_yi_tokens.key,
            authority: self.yi_token_key,
            amount,
            signed_by_vault: true,
        }
    }

    /// Plans a stake of `underlying_amount`. The pool's balance and the mint's supply are read
    /// as these accounts hold them, that is as they stood before the deposit.
    pub fn stake(&self, underlying_amount: u64) -> (outcome: Result<Vec<TokenInstruction>, ErrorCode>)
        ensures
            planned(outcome) == self.plan(underlying_amount),
    {
        let deposit = self.deposit_underlying(underlying_amount);
        match self.yi_token.calculate_yitokens_for_underlying(
            underlying_amount,
            self.yi_underlying_tokens.amount,
            self.yi_mint.supply,
        ) {
            Some(mint_amount) => {
                let mint = self.mint_yi_tokens(mint_amount);
                Ok(vec![deposit, mint])
            },
            None => Err(ErrorCode::ArithmeticOverflow),
        }
    }
}

/// What a stake of `underlying_amount` asks of the host: nothing where the amount is zero.
pub open spec fn handled(accounts: &Stake, underlying_amount: u64) -> Result<Seq<TokenInstruction>, ErrorCode> {
    if underlying_amount == 0 {
        Ok(Seq::empty())
    } else {
        accounts.plan(underlying_amount)
    }
}

/// Stakes `underlying_amount` underlying tokens: a stake of nothing moves nothing.
pub fn handler(accounts: &Stake, underlying_amount: u64) -> (outcome: Result<Vec<TokenInstruction>, ErrorCode>)
    ensures
        planned(outcome) == handled(accounts, underlying_amount),
        underlying_amount == 0 ==> outcome is Ok && outcome->Ok_0@.len() == 0,
{
    // short circuit if no amount specified
    if underlying_amount == 0 {
        return Ok(Vec::new());
    }
    accounts.stake(underlying_amount)
}

} // verus!
