use vstd::prelude::*;

use crate::errors::AppError;

verus! {

/// Whether an account holding `balance` can pay `amount` and keep `min_balance`:
/// `InsufficientBalance` when it cannot.
pub fn check_transfer_safe(balance: u64, min_balance: u64, amount: u64) -> (r: Result<(), AppError>)
    ensures
        balance >= amount + min_balance ==> r is Ok,
        balance < amount + min_balance ==> r == Err::<(), AppError>(AppError::InsufficientBalance),
{
    if (balance as u128) >= (amount as u128) + (min_balance as u128) {
        Ok(())
    } else {
        Err(AppError::InsufficientBalance)
    }
}

/// Balances observed around a buyback swap.
#[derive(Clone, Copy, Debug)]
pub struct SwapSnapshot {
    /// Tokens held by the treasury.
    pub token_balance: u64,
    /// Wrapped currency held by the treasury.
    pub sol_balance: u64,
    /// The token's supply.
    pub mint_supply: u64,
    /// Currency held by the treasury's record.
    pub treasury_lamports: u64,
}

/// Whether a buyback may start: there must be wrapped currency to swap.
pub fn check_swap_start(pre: &SwapSnapshot) -> (r: Result<(), AppError>)
    ensures
        pre.sol_balance > 0 <==> r is Ok,
        r is Err ==> r == Err::<(), AppError>(AppError::InsufficientBalance),
{
    if pre.sol_balance > 0 {
        Ok(())
    } else {
        Err(AppError::InsufficientBalance)
    }
}

/// Checks what a swap did and returns the tokens it bought, all of which are burned. The swap
/// may not mint, may not touch the treasury's own currency, must raise the token balance and
/// must spend all the wrapped currency; otherwise `InvalidSwapState`.
pub fn check_swap_result(pre: &SwapSnapshot, post: &SwapSnapshot) -> (r: Result<u64, AppError>)
    ensures
        ({
            let ok = post.mint_supply == pre.mint_supply && post.treasury_lamports
                == pre.treasury_lamports && post.token_balance > pre.token_balance
                && post.sol_balance == 0;
            &&& ok ==> r == Ok::<u64, AppError>((post.token_balance - pre.token_balance) as u64)
            &&& !ok ==> r == Err::<u64, AppError>(AppError::InvalidSwapState)
        }),
{
    if post.mint_supply != pre.mint_supply {
        return Err(AppError::InvalidSwapState);
    }
    if post.treasury_lamports != pre.treasury_lamports {
        return Err(AppError::InvalidSwapState);
    }
    if post.token_balance <= pre.token_balance {
        return Err(AppError::InvalidSwapState);
    }
    if post.sol_balance != 0 {
        return Err(AppError::InvalidSwapState);
    }
    Ok(post.token_balance - pre.token_balance)
}

} // verus!
