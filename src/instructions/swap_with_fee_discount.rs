use crate::errors::ErrorCode;
use crate::manager::swap_manager::{DiscountedSwapUpdate, PostSwapUpdate};
use crate::state::whirlpool::{after_swap, Whirlpool};
use crate::state::whirlpool_discount_info::WhirlpoolDiscountInfo;
use crate::util::fee_discount::{
    calculate_equivalent_discount_token_amount,
    equivalent_discount_amount,
    fee_in_token_a,
    fee_in_token_b,
    pow10,
};
use vstd::prelude::*;

verus! {

/// The records that a swap with a fee discount reads and writes.
pub struct SwapWithFeeDiscount {
    pub whirlpool: Whirlpool,
    pub whirlpool_discount_info: WhirlpoolDiscountInfo,
}

/// What a settled swap asks of the token ledger: burn `burn_amount` of the
/// discount token from the payer, then move the swap's amounts. When savings
/// are reported, `saved_amount` is the discount's worth in the discount
/// token; it is reported only, never burned.
#[derive(Clone, Copy, Debug, PartialEq, Eq, Structural)]
pub struct SwapSettlement {
    pub swap_update: PostSwapUpdate,
    pub burn_amount: u64,
    pub saved_amount: Option<u64>,
}

/// The slippage bound on a swap's result. With an exact input, the output
/// (B when swapping from A to B) must reach the threshold; with an exact
/// output, the input (A when swapping from A to B) must not exceed it.
pub open spec fn slippage_check(
    update: PostSwapUpdate,
    other_amount_threshold: u64,
    amount_specified_is_input: bool,
    a_to_b: bool,
) -> Result<(), ErrorCode> {
    if amount_specified_is_input {
        let amount_out = if a_to_b {
            update.amount_b
        } else {
            update.amount_a
        };
        if amount_out < other_amount_threshold {
            Err(ErrorCode::AmountOutBelowMinimum)
        } else {
            Ok(())
        }
    } else {
        let amount_in = if a_to_b {
            update.amount_a
        } else {
            update.amount_b
        };
        if amount_in > other_amount_threshold {
            Err(ErrorCode::AmountInAboveMaximum)
        } else {
            Ok(())
        }
    }
}

/// The outcome of a swap with a fee discount, step by step: the pool must be
/// enabled; the swap computation's failure is passed on; the burned fee, and
/// the saved fee when it is reported, are converted into the discount token;
/// the slippage bound is checked. The first failure is the outcome.
pub open spec fn settle_outcome(
    pool: Whirlpool,
    info: WhirlpoolDiscountInfo,
    swap: Result<DiscountedSwapUpdate, u32>,
    other_amount_threshold: u64,
    amount_specified_is_input: bool,
    a_to_b: bool,
    report_savings: bool,
) -> Result<SwapSettlement, ErrorCode> {
    if !pool.is_enabled {
        Err(ErrorCode::PoolDisabled)
    } else {
        match swap {
            Err(code) => Err(ErrorCode::SwapEngine(code)),
            Ok(s) => {
                let update = s.swap_update;
                let burn = equivalent_discount_amount(
                    info,
                    update,
                    s.burn_fee_accumulated,
                    amount_specified_is_input,
                    a_to_b,
                );
                let saved = equivalent_discount_amount(
                    info,
                    update,
                    s.discount_amount_accumulated,
                    amount_specified_is_input,
                    a_to_b,
                );
                if burn is Err {
                    Err(burn->Err_0)
                } else if report_savings && saved is Err {
                    Err(saved->Err_0)
                } else if slippage_check(
                    update,
                    other_amount_threshold,
                    amount_specified_is_input,
                    a_to_b,
                ) is Err {
                    Err(
                        slippage_check(
                            update,
                            other_amount_threshold,
                            amount_specified_is_input,
                            a_to_b,
                        )->Err_0,
                    )
                } else {
                    Ok(
                        SwapSettlement {
                            swap_update: update,
                            burn_amount: burn->Ok_0,
                            saved_amount: if report_savings {
                                Some(saved->Ok_0)
                            } else {
                                None
                            },
                        },
                    )
                }
            },
        }
    }
}

fn check_slippage(
    update: &PostSwapUpdate,
    other_amount_threshold: u64,
    amount_specified_is_input: bool,
    a_to_b: bool,
) -> (r: Result<(), ErrorCode>)
    ensures
        r == slippage_check(*update, other_amount_threshold, amount_specified_is_input, a_to_b),
{
    if amount_specified_is_input {
        if (a_to_b && other_amount_threshold > update.amount_b) || (!a_to_b
            && other_amount_threshold > update.amount_a) {
            return Err(ErrorCode::AmountOutBelowMinimum);
        }
    } else {
        if (a_to_b && other_amount_threshold < update.amount_a) || (!a_to_b
            && other_amount_threshold < update.amount_b) {
            return Err(ErrorCode::AmountInAboveMaximum);
        }
    }
    Ok(())
}

/// Settles a swap whose fee is paid by burning the discount token.
///
/// `swap` is what the swap computation returned for this pool and request.
/// On success the pool takes the swap's new state and the result says what
/// to burn and what to move; on failure the pool is left as it was, and
/// nothing is to be burned or moved.
pub fn handler(
    accounts: &mut SwapWithFeeDiscount,
    swap: Result<DiscountedSwapUpdate, u32>,
    other_amount_threshold: u64,
    amount_specified_is_input: bool,
    a_to_b: bool,
    report_savings: bool,
) -> (r: Result<SwapSettlement, ErrorCode>)
    ensures
        r == settle_outcome(
            old(accounts).whirlpool,
            old(accounts).whirlpool_discount_info,
            swap,
            other_amount_threshold,
            amount_specified_is_input,
            a_to_b,
            report_savings,
        ),
        final(accounts).whirlpool_discount_info == old(accounts).whirlpool_discount_info,
        r matches Ok(s) ==> final(accounts).whirlpool == after_swap(
            old(accounts).whirlpool,
            s.swap_update,
            a_to_b,
        ),
        r is Err ==> final(accounts).whirlpool == old(accounts).whirlpool,
{
    if let Err(e) = accounts.whirlpool.require_enabled() {
        return Err(e);
    }
    let swap = match swap {
        Ok(s) => s,
        Err(code) => {
            return Err(ErrorCode::SwapEngine(code));
        },
    };
    let info = &accounts.whirlpool_discount_info;

    let burn_amount = match calculate_equivalent_discount_token_amount(
        info,
        &swap.swap_update,
        swap.burn_fee_accumulated,
        amount_specified_is_input,
        a_to_b,
    ) {
        Ok(v) => v,
        Err(e) => {
            return Err(e);
        },
    };

    let saved_amount = if report_savings {
        match calculate_equivalent_discount_token_amount(
            info,
            &swap.swap_update,
            swap.discount_amount_accumulated,
            amount_specified_is_input,
            a_to_b,
        ) {
            Ok(v) => Some(v),
            Err(e) => {
                return Err(e);
            },
        }
    } else {
        None
    };

    if let Err(e) = check_slippage(
        &swap.swap_update,
        other_amount_threshold,
        amount_specified_is_input,
        a_to_b,
    ) {
        return Err(e);
    }

    accounts.whirlpool.update_after_swap(&swap.swap_update, a_to_b);
    Ok(SwapSettlement { swap_update: swap.swap_update, burn_amount, saved_amount })
}

/// A zero conversion rate never divides silently: on an enabled pool, once
/// the swap computation succeeds and the fee to burn, scaled to the discount
/// token, stays within 128 bits, the swap fails `DivideByZero`.
pub proof fn lemma_zero_rate_rejected(
    pool: Whirlpool,
    info: WhirlpoolDiscountInfo,
    swap: DiscountedSwapUpdate,
    other_amount_threshold: u64,
    amount_specified_is_input: bool,
    a_to_b: bool,
    report_savings: bool,
)
    requires
        info.discount_token_rate_over_token_a == 0,
        pool.is_enabled,
        fee_in_token_a(
            swap.swap_update,
            swap.burn_fee_accumulated,
            amount_specified_is_input,
            a_to_b,
        ) * pow10(info.token_decimals as nat) <= u128::MAX,
    ensures
        settle_outcome(
            pool,
            info,
            Ok(swap),
            other_amount_threshold,
            amount_specified_is_input,
            a_to_b,
            report_savings,
        ) == Err::<SwapSettlement, ErrorCode>(ErrorCode::DivideByZero),
{
}

} // verus!
