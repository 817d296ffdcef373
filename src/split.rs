//! The fixed ninety / ten split of a payment.
use vstd::prelude::*;

verus! {

/// Share of a payment that goes to the author, in percent.
pub const AUTHOR_PERCENT: u128 = 90;

/// Denominator of the percentages.
pub const PERCENT_BASE: u128 = 100;

/// What goes to the author: `floor(amount * 90 / 100)`.
pub open spec fn author_share(amount: nat) -> nat {
    amount * 90 / 100
}

/// What goes to the platform: the exact remainder of the payment.
pub open spec fn platform_share(amount: nat) -> nat {
    (amount - author_share(amount)) as nat
}

/// Errors a settlement can end with.
#[derive(Clone, Copy, Debug, PartialEq, Eq, Structural)]
pub enum SplitError {
    /// A step of the share computation could not be represented.
    ArithmeticOverflow,
    /// The token program refused the transfer to the author.
    AuthorTransferFailed,
    /// The token program refused the transfer to the platform.
    PlatformTransferFailed,
}

/// The two payouts of one payment.
#[derive(Clone, Copy, Debug, PartialEq, Eq, Structural)]
pub struct SplitAmounts {
    pub author_amount: u64,
    pub platform_amount: u64,
}

impl SplitAmounts {
    /// These are the shares of `amount`.
    pub open spec fn shares_of(self, amount: nat) -> bool {
        &&& self.author_amount == author_share(amount)
        &&& self.platform_amount == platform_share(amount)
    }
}

/// The author's share never exceeds the payment, and the two shares add up
/// to the payment.
pub proof fn lemma_shares_sum_to_amount(amount: nat)
    ensures
        author_share(amount) <= amount,
        author_share(amount) + platform_share(amount) == amount,
{
    assert(amount * 90 / 100 <= amount) by (nonlinear_arith);
}

/// Splits `amount` into the author's and the platform's payouts.
///
/// The product `amount * 90` is formed in 128 bits, so every `u64` amount
/// is split exactly; the overflow error stays for a step that could not be
/// represented, and is never returned.
pub fn split_amounts(amount: u64) -> (r: Result<SplitAmounts, SplitError>)
    ensures
        r matches Ok(s) && s.shares_of(amount as nat),
{
    proof {
        lemma_shares_sum_to_amount(amount as nat);
    }
    let wide = match (amount as u128).checked_mul(AUTHOR_PERCENT) {
        Some(p) => p / PERCENT_BASE,
        None => return Err(SplitError::ArithmeticOverflow),
    };
    if wide > u64::MAX as u128 {
        return Err(SplitError::ArithmeticOverflow);
    }
    let author_amount = wide as u64;
    let platform_amount = match amount.checked_sub(author_amount) {
        Some(p) => p,
        None => return Err(SplitError::ArithmeticOverflow),
    };
    Ok(SplitAmounts { author_amount, platform_amount })
}

} // verus!
