//! The vault record and its exchange-rate arithmetic.

use vstd::prelude::*;

use crate::accounts::{zeroes, Address};
use crate::MILLIBPS_PER_WHOLE;

verus! {

/// A YiToken is a token which auto-compounds an underlying token.
#[derive(Clone, Copy, Debug, PartialEq, Eq)]
pub struct YiToken {
    /// Mint of the [YiToken].
    pub mint: Address,
    /// Bump seed.
    pub bump: u8,
    /// Padding.
    pub _padding: [u8; 7],
    /// The mint backing the [YiToken].
    pub underlying_token_mint: Address,
    /// The token account containing the staked tokens.
    pub underlying_tokens: Address,
    /// The staking fee in thousands of bps.
    pub stake_fee_millibps: u32,
    /// The unstaking fee in thousands of bps.
    pub unstake_fee_millibps: u32,
}

/// The value `x` as a `u64`, where it is one.
pub open spec fn narrow(x: int) -> Option<u64> {
    if 0 <= x <= u64::MAX {
        Some(x as u64)
    } else {
        None
    }
}

/// `amount` scaled by `numerator / denominator`, rounded down.
pub open spec fn pro_rata(amount: int, numerator: int, denominator: int) -> int {
    amount * numerator / denominator
}

/// What is left of `amount` once a fee is applied: all of it where the fee is zero,
/// otherwise `amount * fee_millibps / MILLIBPS_PER_WHOLE`, rounded down.
pub open spec fn after_fee(amount: u64, fee_millibps: u32) -> Option<u64> {
    if fee_millibps == 0 {
        Some(amount)
    } else {
        narrow(pro_rata(amount as int, fee_millibps as int, MILLIBPS_PER_WHOLE as int))
    }
}

/// `amount * numerator / denominator` with the fee applied, where every step fits in 64 bits.
pub open spec fn convert(amount: u64, numerator: u64, denominator: u64, fee_millibps: u32) -> Option<u64> {
    if denominator == 0 {
        None
    } else {
        match narrow(pro_rata(amount as int, numerator as int, denominator as int)) {
            Some(no_fee) => after_fee(no_fee, fee_millibps),
            None => None,
        }
    }
}

/// The product of a 64-bit and a 64-bit (or narrower) value fits in 128 bits.
proof fn lemma_product_fits(a: u128, b: u128)
    requires
        a <= u64::MAX,
        b <= u64::MAX,
    ensures
        0 <= a * b <= u128::MAX,
{
    assert(a * b <= 0xffff_ffff_ffff_ffff * 0xffff_ffff_ffff_ffff) by (nonlinear_arith)
        requires
            0 <= a <= 0xffff_ffff_ffff_ffff,
            0 <= b <= 0xffff_ffff_ffff_ffff,
    ;
}

/// Calls `num_traits::ToPrimitive::to_u64` on a `u128`: the value itself where it is at
/// most `u64::MAX`, and `None` above that.
#[verifier::external_body]
fn to_u64(value: u128) -> (narrowed: Option<u64>)
    ensures
        narrowed == narrow(value as int),
{
    num_traits::ToPrimitive::to_u64(&value)
}

/// `floor(amount * numerator / denominator)` in 128 bits, narrowed to 64.
fn mul_div(amount: u64, numerator: u64, denominator: u64) -> (quotient: Option<u64>)
    ensures
        quotient == if denominator == 0 {
            None
        } else {
            narrow(pro_rata(amount as int, numerator as int, denominator as int))
        },
{
    proof {
        lemma_product_fits(amount as u128, numerator as u128);
    }
    let product: u128 = (amount as u128).checked_mul(numerator as u128)?;
    let quotient: u128 = product.checked_div(denominator as u128)?;
    to_u64(quotient)
}

/// Applies a fee to an amount that was converted without one.
fn apply_fee(amt_no_fee: u64, fee_millibps: u32) -> (amount: Option<u64>)
    ensures
        amount == after_fee(amt_no_fee, fee_millibps),
{
    if fee_millibps == 0 {
        Some(amt_no_fee)
    } else {
        mul_div(amt_no_fee, fee_millibps as u64, MILLIBPS_PER_WHOLE as u64)
    }
}

/// The tag that every vault's authority is derived under: the ASCII bytes of `YiToken`.
pub open spec fn seed_tag() -> Seq<u8> {
    seq![89u8, 105u8, 84u8, 111u8, 107u8, 101u8, 110u8]
}

impl YiToken {
    /// The signer seeds of the vault: the tag, the bytes of the mint's address, and the bump.
    pub fn signer_seeds(&self) -> (seeds: Vec<Vec<u8>>)
        ensures
            seeds@.len() == 3,
            seeds@[0]@ == seed_tag(),
            seeds@[1]@ == self.mint@,
            seeds@[2]@ == seq![self.bump],
    {
        let tag: Vec<u8> = vec![89u8, 105u8, 84u8, 111u8, 107u8, 101u8, 110u8];
        let bump: Vec<u8> = vec![self.bump];
        let seeds: Vec<Vec<u8>> = vec![tag, self.mint.to_vec(), bump];
        seeds
    }

    /// The fees are at most 100%.
    pub open spec fn wf(&self) -> bool {
        &&& self.stake_fee_millibps <= MILLIBPS_PER_WHOLE
        &&& self.unstake_fee_millibps <= MILLIBPS_PER_WHOLE
    }

    /// The underlying tokens paid out for `yitoken_amount` Yi tokens, from a pool that holds
    /// `total_underlying_tokens` against `total_supply` Yi tokens.
    pub open spec fn underlying_for_yitokens(
        &self,
        yitoken_amount: u64,
        total_underlying_tokens: u64,
        total_supply: u64,
    ) -> Option<u64> {
        if yitoken_amount == 0 {
            Some(0u64)
        } else if yitoken_amount > total_supply {
            None
        } else if yitoken_amount == total_supply {
            Some(total_underlying_tokens)
        } else {
            convert(yitoken_amount, total_underlying_tokens, total_supply, self.unstake_fee_millibps)
        }
    }

    /// The Yi tokens minted for `underlying_amount` underlying tokens, into a pool that holds
    /// `total_underlying_tokens` against `total_supply` Yi tokens.
    pub open spec fn yitokens_for_underlying(
        &self,
        underlying_amount: u64,
        total_underlying_tokens: u64,
        total_supply: u64,
    ) -> Option<u64> {
        if underlying_amount == 0 {
            Some(0u64)
        } else if total_underlying_tokens == 0 {
            Some(underlying_amount)
        } else {
            convert(underlying_amount, total_supply, total_underlying_tokens, self.stake_fee_millibps)
        }
    }

    /// Calculates the number of underlying tokens to pay out for the given amount of
    /// [YiToken]s. Redeeming nothing pays nothing; redeeming the whole supply pays the whole
    /// pool, whatever the fee; redeeming more than the supply fails.
    pub fn calculate_underlying_for_yitokens(
        &self,
        yitoken_amount: u64,
        total_underlying_tokens: u64,
        total_supply: u64,
    ) -> (amount: Option<u64>)
        ensures
            amount == self.underlying_for_yitokens(yitoken_amount, total_underlying_tokens, total_supply),
            yitoken_amount == 0 ==> amount == Some(0u64),
            yitoken_amount > total_supply ==> amount is None,
            yitoken_amount == total_supply && (total_supply > 0 || total_underlying_tokens == 0) ==> amount
                == Some(total_underlying_tokens),
    {
        if yitoken_amount == 0 {
            return Some(0);
        }
        // impossible to have more yitokens than the total supply.
        if yitoken_amount > total_supply {
            return None;
        }
        // if withdrawing all tokens, give the entire supply
        if yitoken_amount == total_supply {
            return Some(total_underlying_tokens);
        }
        let amt_no_fee: u64 = mul_div(yitoken_amount, total_underlying_tokens, total_supply)?;
        apply_fee(amt_no_fee, self.unstake_fee_millibps)
    }

    /// Calculates the number of [YiToken]s to mint for the given amount of underlying tokens.
    /// Depositing nothing mints nothing; a deposit into an empty pool is minted one for one,
    /// whatever the supply.
    pub fn calculate_yitokens_for_underlying(
        &self,
        underlying_amount: u64,
        total_underlying_tokens: u64,
        total_supply: u64,
    ) -> (amount: Option<u64>)
        ensures
            amount == self.yitokens_for_underlying(underlying_amount, total_underlying_tokens, total_supply),
            underlying_amount == 0 ==> amount == Some(0u64),
            total_underlying_tokens == 0 ==> amount == Some(underlying_amount),
    {
        if underlying_amount == 0 {
            return Some(0);
        }
        // if there are no tokens in the contract, it's 1:1
        if total_underlying_tokens == 0 {
            return Some(underlying_amount);
        }
        let amt_no_fee: u64 = mul_div(underlying_amount, total_supply, total_underlying_tokens)?;
        apply_fee(amt_no_fee, self.stake_fee_millibps)
    }
}

impl Default for YiToken {
    /// The record with every address zeroed and no fees.
    fn default() -> (record: YiToken)
        ensures
            record.mint@ == zeroes(32),
            record.bump == 0,
            record._padding@ == zeroes(7),
            record.underlying_token_mint@ == zeroes(32),
            record.underlying_tokens@ == zeroes(32),
            record.stake_fee_millibps == 0,
            record.unstake_fee_millibps == 0,
            record.wf(),
    {
        let record = YiToken {
            mint: Address::zero(),
            bump: 0,
            _padding: [0u8; 7],
            underlying_token_mint: Address::zero(),
            underlying_tokens: Address::zero(),
            stake_fee_millibps: 0,
            unstake_fee_millibps: 0,
        };
        assert(record._padding@ =~= zeroes(7));
        record
    }
}

} // verus!
