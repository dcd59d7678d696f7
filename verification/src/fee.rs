//! Fixed-point percentage fee arithmetic.  A fee of
//! `fee_rate / 10^fee_decimals` percent is applied to an amount as
//! `floor(amount * fee_rate * 10^d / 100^d)`, in unsigned 128-bit
//! arithmetic throughout; any overflow, and a fee exceeding the amount,
//! is a hard failure rather than a silent clamp.

use vstd::prelude::*;
use vstd::arithmetic::power::{pow, lemma_pow0, lemma_pow1, lemma_pow_adds, lemma_pow_increases,
    lemma_pow_positive};
use crate::response::Error;

verus! {

/// The fee owed on `amount` under rate `fee` with `d` decimal places:
/// floor(amount * fee * 10^d / 100^d).
pub open spec fn spec_fee_amount(amount: u128, fee: u128, d: u8) -> int {
    (amount * (fee * pow(10, d as nat))) / pow(100, d as nat)
}

/// Every step of the fee computation stays inside unsigned 128-bit
/// arithmetic and the fee does not exceed the amount.  When this fails,
/// the split is refused.
pub open spec fn fee_ok(amount: u128, fee: u128, d: u8) -> bool {
    &&& pow(10, d as nat) <= u128::MAX
    &&& fee * pow(10, d as nat) <= u128::MAX
    &&& pow(100, d as nat) <= u128::MAX
    &&& amount * (fee * pow(10, d as nat)) <= u128::MAX
    &&& spec_fee_amount(amount, fee, d) <= amount
}

/// Raises `base` to `exp`, refusing on overflow.
pub fn checked_pow_u128(base: u128, exp: u8) -> (r: Option<u128>)
    requires
        1 <= base,
    ensures
        match r {
            Some(v) => v == pow(base as int, exp as nat),
            None => pow(base as int, exp as nat) > u128::MAX,
        },
{
    let mut acc: u128 = 1;
    let mut i: u8 = 0;
    proof {
        lemma_pow0(base as int);
    }
    while i < exp
        invariant
            1 <= base,
            0 <= i <= exp,
            acc == pow(base as int, i as nat),
            1 <= acc,
        decreases exp - i,
    {
        proof {
            lemma_pow_adds(base as int, i as nat, 1);
            lemma_pow1(base as int);
            lemma_pow_positive(base as int, (i + 1) as nat);
        }
        acc = match acc.checked_mul(base) {
            Some(v) => v,
            None => {
                proof {
                    lemma_pow_increases(base as nat, (i + 1) as nat, exp as nat);
                }
                return None;
            },
        };
        i = i + 1;
    }
    Some(acc)
}

/// Splits `amount` into the fee owed to the administrator and the
/// remainder owed to the recipient.  Succeeds exactly when every
/// arithmetic step fits and the fee does not exceed the amount; the two
/// parts always sum back to `amount` exactly.
pub fn fee_split(amount: u128, fee: u128, fee_decimals: u8) -> (r: Result<(u128, u128), Error>)
    ensures
        fee_ok(amount, fee, fee_decimals) <==> r is Ok,
        r matches Ok(p) ==> {
            &&& p.0 == spec_fee_amount(amount, fee, fee_decimals)
            &&& p.0 + p.1 == amount
        },
        r matches Err(e) ==> e == Error::Arithmetic,
{
    let p10 = match checked_pow_u128(10, fee_decimals) {
        Some(v) => v,
        None => {
            return Err(Error::Arithmetic);
        },
    };
    let rate = match fee.checked_mul(p10) {
        Some(v) => v,
        None => {
            return Err(Error::Arithmetic);
        },
    };
    let p100 = match checked_pow_u128(100, fee_decimals) {
        Some(v) => v,
        None => {
            return Err(Error::Arithmetic);
        },
    };
    let num = match amount.checked_mul(rate) {
        Some(v) => v,
        None => {
            return Err(Error::Arithmetic);
        },
    };
    proof {
        lemma_pow_positive(100, fee_decimals as nat);
    }
    let fee_amount = num / p100;
    if fee_amount > amount {
        return Err(Error::Arithmetic);
    }
    Ok((fee_amount, amount - fee_amount))
}

} // verus!
