//! Laws of the exchange rate.

use vstd::prelude::*;

use crate::state::YiToken;

verus! {

/// Rounding only loses value. In a vault without fees that holds a balance against a
/// supply, both nonzero, a deposit mints `floor(deposit * supply / balance)` Yi tokens, and
/// unstaking those at once, from the pool as the deposit and the minting left it, pays out
/// no more than the deposit.
pub proof fn lemma_round_trip_never_gains(vault: YiToken, deposit: u64, balance: u64, supply: u64)
    requires
        vault.stake_fee_millibps == 0,
        vault.unstake_fee_millibps == 0,
        balance > 0,
        supply > 0,
        vault.yitokens_for_underlying(deposit, balance, supply) is Some,
        balance + deposit <= u64::MAX,
        supply + vault.yitokens_for_underlying(deposit, balance, supply)->Some_0 <= u64::MAX,
    ensures
        ({
            let minted = vault.yitokens_for_underlying(deposit, balance, supply)->Some_0;
            let paid_out = vault.underlying_for_yitokens(
                minted,
                (balance + deposit) as u64,
                (supply + minted) as u64,
            );
            &&& minted == deposit * supply / (balance as int)
            &&& paid_out is Some
            &&& paid_out->Some_0 <= deposit
        }),
{
    let minted = vault.yitokens_for_underlying(deposit, balance, supply)->Some_0;
    let d = deposit as int;
    let b = balance as int;
    let s = supply as int;
    let m = minted as int;
    if deposit > 0 {
        assert(m == d * s / b);
        assert(m * b <= d * s) by (nonlinear_arith)
            requires
                m == d * s / b,
                b > 0,
        ;
        if m > 0 {
            assert(0 <= m * (b + d) / (s + m) <= d) by (nonlinear_arith)
                requires
                    m * b <= d * s,
                    m > 0,
                    s > 0,
                    b > 0,
                    d > 0,
            ;
        }
    }
}

} // verus!
