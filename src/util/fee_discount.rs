use crate::errors::ErrorCode;
use crate::manager::swap_manager::PostSwapUpdate;
use crate::state::whirlpool_discount_info::WhirlpoolDiscountInfo;
use vstd::prelude::*;

verus! {

/// Ten to the power `n`.
pub open spec fn pow10(n: nat) -> nat
    decreases n,
{
    if n == 0 {
        1
    } else {
        10 * pow10((n - 1) as nat)
    }
}

/// Whether a swap's fee is charged in token B: when the swap runs from A to B
/// with an exact output, or from B to A with an exact input.
pub open spec fn fee_in_token_b(amount_specified_is_input: bool, a_to_b: bool) -> bool {
    a_to_b != amount_specified_is_input
}

/// A fee expressed in token A: as it is, or, when it is charged in token B,
/// at the swap's own price, rounded down.
pub open spec fn fee_in_token_a(
    update: PostSwapUpdate,
    amount: u64,
    amount_specified_is_input: bool,
    a_to_b: bool,
) -> int {
    if fee_in_token_b(amount_specified_is_input, a_to_b) {
        (amount * update.amount_a) / (update.amount_b as int)
    } else {
        amount as int
    }
}

/// The amount of the discount token worth `amount` of fee, rounded down, or
/// the first error that the checked computation meets.
pub open spec fn equivalent_discount_amount(
    info: WhirlpoolDiscountInfo,
    update: PostSwapUpdate,
    amount: u64,
    amount_specified_is_input: bool,
    a_to_b: bool,
) -> Result<u64, ErrorCode> {
    let rate = info.discount_token_rate_over_token_a;
    if fee_in_token_b(amount_specified_is_input, a_to_b) && update.amount_b == 0 {
        Err(ErrorCode::DivideByZero)
    } else {
        let scaled = fee_in_token_a(update, amount, amount_specified_is_input, a_to_b) * pow10(
            info.token_decimals as nat,
        );
        if scaled > u128::MAX {
            Err(ErrorCode::MultiplicationOverflow)
        } else if rate == 0 {
            Err(ErrorCode::DivideByZero)
        } else if scaled / (rate as int) > u64::MAX {
            Err(ErrorCode::NumberCastError)
        } else {
            Ok((scaled / (rate as int)) as u64)
        }
    }
}

proof fn lemma_pow10_monotone(i: nat, j: nat)
    requires
        i <= j,
    ensures
        pow10(i) <= pow10(j),
        pow10(i) >= 1,
    decreases j,
{
    if j > i {
        lemma_pow10_monotone(i, (j - 1) as nat);
    } else if i > 0 {
        lemma_pow10_monotone((i - 1) as nat, (i - 1) as nat);
    }
}

/// `x` times ten to the `d`, or `None` where that leaves the 128-bit range.
pub fn checked_scale_pow10(x: u128, d: u8) -> (r: Option<u128>)
    ensures
        x * pow10(d as nat) <= u128::MAX ==> r == Some((x * pow10(d as nat)) as u128),
        x * pow10(d as nat) > u128::MAX ==> r is None,
{
    let mut acc: u128 = x;
    let mut i: u8 = 0;
    proof {
        assert(pow10(0) == 1);
        assert(x * pow10(0) == x);
    }
    while i < d
        invariant
            i <= d,
            acc == x * pow10(i as nat),
        decreases d - i,
    {
        proof {
            assert(pow10((i + 1) as nat) == 10 * pow10(i as nat));
            assert(x * pow10((i + 1) as nat) == acc * 10) by (nonlinear_arith)
                requires
                    pow10((i + 1) as nat) == 10 * pow10(i as nat),
                    acc == x * pow10(i as nat),
            ;
        }
        match acc.checked_mul(10) {
            Some(next) => {
                acc = next;
            },
            None => {
                proof {
                    lemma_pow10_monotone((i + 1) as nat, d as nat);
                    let p = pow10((i + 1) as nat);
                    let q = pow10(d as nat);
                    assert(x * p <= x * q) by (nonlinear_arith)
                        requires
                            p <= q,
                            x >= 0,
                    ;
                }
                return None;
            },
        }
        i = i + 1;
    }
    Some(acc)
}

/// Converts `amount` of a swap's fee into the amount of the discount token
/// that it is worth, at the record's rate and decimal count, rounded down.
///
/// A fee charged in token B is first valued in token A at the swap's price,
/// `amount * amount_a / amount_b`. Every step is checked: a zero `amount_b` or a
/// zero rate gives `DivideByZero`, a product beyond 128 bits gives
/// `MultiplicationOverflow`, and a result beyond 64 bits gives `NumberCastError`.
pub fn calculate_equivalent_discount_token_amount(
    whirlpool_discount_info: &WhirlpoolDiscountInfo,
    post_swap_update: &PostSwapUpdate,
    amount: u64,
    amount_specified_is_input: bool,
    a_to_b: bool,
) -> (r: Result<u64, ErrorCode>)
    ensures
        r == equivalent_discount_amount(
            *whirlpool_discount_info,
            *post_swap_update,
            amount,
            amount_specified_is_input,
            a_to_b,
        ),
{
    let amount_u128 = amount as u128;
    let mut amount_in_token_a = amount_u128;

    if a_to_b != amount_specified_is_input {
        if post_swap_update.amount_b == 0 {
            return Err(ErrorCode::DivideByZero);
        }
        let amount_a = post_swap_update.amount_a as u128;
        proof {
            assert(amount_u128 * amount_a <= 0xffff_ffff_ffff_ffff * 0xffff_ffff_ffff_ffff)
                by (nonlinear_arith)
                requires
                    amount_u128 <= 0xffff_ffff_ffff_ffff,
                    amount_a <= 0xffff_ffff_ffff_ffff,
            ;
        }
        amount_in_token_a = (amount_u128 * amount_a) / (post_swap_update.amount_b as u128);
    }

    let rate = whirlpool_discount_info.discount_token_rate_over_token_a as u128;
    let scaled = match checked_scale_pow10(amount_in_token_a, whirlpool_discount_info.token_decimals) {
        Some(s) => s,
        None => {
            return Err(ErrorCode::MultiplicationOverflow);
        },
    };
    if rate == 0 {
        return Err(ErrorCode::DivideByZero);
    }
    let amount_in_discount_token = scaled / rate;

    if amount_in_discount_token > u64::MAX as u128 {
        return Err(ErrorCode::NumberCastError);
    }
    Ok(amount_in_discount_token as u64)
}

} // verus!

verus! {

/// A fee charged in token A, converted at a rate of exactly one discount
/// token per token A (ten to the discount token's decimals), comes out
/// unchanged: no rounding is lost.
pub proof fn lemma_conversion_at_par(
    info: WhirlpoolDiscountInfo,
    update: PostSwapUpdate,
    amount: u64,
    amount_specified_is_input: bool,
    a_to_b: bool,
)
    requires
        info.discount_token_rate_over_token_a == pow10(info.token_decimals as nat),
        !fee_in_token_b(amount_specified_is_input, a_to_b),
    ensures
        equivalent_discount_amount(info, update, amount, amount_specified_is_input, a_to_b)
            == Ok::<u64, ErrorCode>(amount),
{
    let p = pow10(info.token_decimals as nat);
    lemma_pow10_monotone(0, info.token_decimals as nat);
    assert(amount * p <= u128::MAX) by (nonlinear_arith)
        requires
            amount <= u64::MAX,
            1 <= p <= u64::MAX,
    ;
    assert((amount * p) / (p as int) == amount) by (nonlinear_arith)
        requires
            p >= 1,
    ;
}

/// A fee whose value in token A, scaled by ten to the discount token's
/// decimals, leaves the 128-bit range fails `MultiplicationOverflow`: the
/// product never wraps.
pub proof fn lemma_conversion_overflow_rejected(
    info: WhirlpoolDiscountInfo,
    update: PostSwapUpdate,
    amount: u64,
    amount_specified_is_input: bool,
    a_to_b: bool,
)
    requires
        !(fee_in_token_b(amount_specified_is_input, a_to_b) && update.amount_b == 0),
        fee_in_token_a(update, amount, amount_specified_is_input, a_to_b) * pow10(
            info.token_decimals as nat,
        ) > u128::MAX,
    ensures
        equivalent_discount_amount(info, update, amount, amount_specified_is_input, a_to_b)
            == Err::<u64, ErrorCode>(ErrorCode::MultiplicationOverflow),
{
}

} // verus!
