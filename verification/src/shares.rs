use vstd::prelude::*;

verus! {

/// Number of atomic units in a share of 1.0.  A share is a fixed-point
/// fraction with eighteen decimal places, so the payee table is valid
/// exactly when the atomic shares sum to this constant.
pub const SHARE_ONE: u128 = 1_000_000_000_000_000_000;

/// One entry of the payee table: an address entitled to a fixed
/// fraction of each mint's payment.
#[derive(Debug)]
pub struct Payee {
    /// Address the share is transferred to.
    pub address: String,
    /// Fraction of each payment, in atomic units of `SHARE_ONE`.
    pub share: u128,
}

/// Mathematical sum of the atomic shares of a payee table.
pub open spec fn sum_shares(s: Seq<Payee>) -> int
    decreases s.len(),
{
    if s.len() == 0 {
        0
    } else {
        sum_shares(s.drop_last()) + s.last().share
    }
}

/// A payee table is valid exactly when its shares sum to 1.0.
pub open spec fn valid_shares(s: Seq<Payee>) -> bool {
    sum_shares(s) == SHARE_ONE as int
}

proof fn lemma_sum_shares_nonneg(s: Seq<Payee>)
    ensures
        sum_shares(s) >= 0,
    decreases s.len(),
{
    if s.len() > 0 {
        lemma_sum_shares_nonneg(s.drop_last());
    }
}

/// Decides whether a payee table's shares sum to exactly 1.0.
///
/// The running total saturates at `u128::MAX`; since a valid sum is far
/// below the saturation point, the answer is exact for every table.
pub fn check_shares(payees: &Vec<Payee>) -> (r: bool)
    ensures
        r == valid_shares(payees@),
{
    let mut acc: u128 = 0;
    let mut i: usize = 0;
    while i < payees.len()
        invariant
            i <= payees@.len(),
            acc as int == if sum_shares(payees@.take(i as int)) <= u128::MAX as int {
                sum_shares(payees@.take(i as int))
            } else {
                u128::MAX as int
            },
        decreases payees@.len() - i,
    {
        let share = payees[i].share;
        proof {
            assert(payees@.take(i + 1 as int).drop_last() =~= payees@.take(i as int));
            assert(payees@.take(i + 1 as int).last() == payees@[i as int]);
        }
        if acc > u128::MAX - share {
            acc = u128::MAX;
        } else {
            acc = acc + share;
        }
        i += 1;
    }
    proof {
        assert(payees@.take(payees@.len() as int) =~= payees@);
    }
    acc == SHARE_ONE
}

/// Exact payout for one payee: `floor(amount * share / SHARE_ONE)`.
pub open spec fn share_amount(amount: u128, share: u128) -> int {
    (amount * share) / (SHARE_ONE as int)
}

/// If a table's shares sum to 1.0, no single share exceeds 1.0.
pub proof fn lemma_share_bounded(s: Seq<Payee>, i: int)
    requires
        valid_shares(s),
        0 <= i < s.len(),
    ensures
        s[i].share <= SHARE_ONE,
{
    lemma_sum_prefix_bound(s, i);
}

proof fn lemma_sum_prefix_bound(s: Seq<Payee>, i: int)
    requires
        0 <= i < s.len(),
    ensures
        s[i].share <= sum_shares(s),
    decreases s.len(),
{
    if i == s.len() - 1 {
        lemma_sum_shares_nonneg(s.drop_last());
    } else {
        lemma_sum_prefix_bound(s.drop_last(), i);
        assert(s.drop_last()[i] == s[i]);
    }
}

/// Computes `floor(amount * share / SHARE_ONE)` without overflowing,
/// by splitting the amount at the `SHARE_ONE` radix.
pub fn mul_share(amount: u128, share: u128) -> (r: u128)
    requires
        share <= SHARE_ONE,
    ensures
        r as int == share_amount(amount, share),
        r <= amount,
{
    let q = amount / SHARE_ONE;
    let rem = amount % SHARE_ONE;
    proof {
        assert(q * share <= q * SHARE_ONE) by (nonlinear_arith)
            requires share <= SHARE_ONE, q >= 0;
        assert(q * SHARE_ONE <= amount) by (nonlinear_arith)
            requires q as int == amount as int / SHARE_ONE as int, amount >= 0;
        assert(rem * share < SHARE_ONE * SHARE_ONE) by (nonlinear_arith)
            requires 0 <= rem < SHARE_ONE, 0 <= share <= SHARE_ONE;
    }
    let high = q * share;
    let low = rem * share / SHARE_ONE;
    proof {
        lemma_mul_share_split(amount as int, share as int, q as int, rem as int);
        assert(low as int <= rem as int) by (nonlinear_arith)
            requires
                low as int == (rem as int * share as int) / (SHARE_ONE as int),
                0 <= share <= SHARE_ONE,
                0 <= rem;
    }
    high + low
}

proof fn lemma_mul_share_split(amount: int, share: int, q: int, rem: int)
    requires
        0 <= amount,
        0 <= share <= SHARE_ONE,
        q == amount / (SHARE_ONE as int),
        rem == amount % (SHARE_ONE as int),
    ensures
        (amount * share) / (SHARE_ONE as int) == q * share + (rem * share) / (SHARE_ONE as int),
{
    let one = SHARE_ONE as int;
    assert(amount == q * one + rem) by (nonlinear_arith)
        requires q == amount / one, rem == amount % one, one > 0;
    assert(amount * share == (q * share) * one + rem * share) by (nonlinear_arith)
        requires amount == q * one + rem;
    assert(((q * share) * one + rem * share) / one == q * share + (rem * share) / one)
        by (nonlinear_arith)
        requires one > 0, 0 <= rem * share;
}

} // verus!
