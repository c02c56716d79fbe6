use vstd::prelude::*;

verus! {

/// The platform's fee on an amount: five percent, rounded down.
pub open spec fn fee_spec(amount: nat) -> nat {
    amount * 5 / 100
}

/// The platform's fee on `amount`: `floor(amount * 5 / 100)`.
pub fn platform_fee_of(amount: u64) -> (fee: u64)
    ensures
        fee == fee_spec(amount as nat),
        fee <= amount,
{
    let wide: u128 = amount as u128 * 5u128;
    let fee: u128 = wide / 100u128;
    assert(fee <= amount) by (nonlinear_arith)
        requires
            wide == amount as u128 * 5,
            fee == wide / 100,
    ;
    fee as u64
}

/// Splits `amount` into the provider's share and the platform's fee; the
/// provider's share takes whatever the rounding of the fee leaves.
pub fn split_amount(amount: u64) -> (r: (u64, u64))
    ensures
        r.1 == fee_spec(amount as nat),
        r.0 + r.1 == amount,
{
    let fee: u64 = platform_fee_of(amount);
    (amount - fee, fee)
}

} // verus!
