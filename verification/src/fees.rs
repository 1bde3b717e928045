use vstd::prelude::*;
use crate::errors::UniversalOrderError;

verus! {

/// Fee rate of the operator, in basis points of the settled amount.
pub const FEE_BASIS_POINTS: u64 = 20;

/// The operator's cut of a settled amount: `floor(total * rate / 10000)`.
pub open spec fn spec_fee(total: u64) -> int {
    total * FEE_BASIS_POINTS / 10000
}

/// What the fiat-paying side receives: the settled amount less the fee.
pub open spec fn spec_net(total: u64) -> int {
    total - spec_fee(total)
}

/// The split is computable without overflow exactly when the scaled amount
/// fits the machine word.
pub open spec fn fee_computable(total: u64) -> bool {
    total * FEE_BASIS_POINTS <= u64::MAX
}

/// Law (fee split exactness): for every amount whose scaling fits the machine
/// word, the fee is exactly the floored basis-point share, the fee and the net
/// part sum back to the amount, and the fee never exceeds the amount.
pub proof fn lemma_fee_split_exact(total: u64)
    requires
        fee_computable(total),
    ensures
        spec_fee(total) == total * FEE_BASIS_POINTS / 10000,
        spec_fee(total) + spec_net(total) == total,
        0 <= spec_fee(total) <= total,
{
    assert(0 <= total * FEE_BASIS_POINTS / 10000 <= total) by (nonlinear_arith)
        requires
            total * FEE_BASIS_POINTS <= u64::MAX,
            0 <= total,
    ;
}

/// Split a settlement amount into the operator's fee and the net payout.
/// Fails, changing nothing, when the scaled amount would overflow.
pub fn calculate_fee(total: u64) -> (r: Result<(u64, u64), UniversalOrderError>)
    ensures
        fee_computable(total) ==> (r matches Ok(p) && p.0 == spec_fee(total) && p.1 == spec_net(
            total,
        ) && p.0 + p.1 == total),
        !fee_computable(total) ==> r == Err::<(u64, u64), UniversalOrderError>(
            UniversalOrderError::InvalidAmount,
        ),
{
    match total.checked_mul(FEE_BASIS_POINTS) {
        Some(gross) => {
            let fee: u64 = gross / 10000;
            proof {
                lemma_fee_split_exact(total);
            }
            Ok((fee, total - fee))
        },
        None => Err(UniversalOrderError::InvalidAmount),
    }
}

} // verus!
