//! The yield split: how much of a redeemed balance is yield, how much of the
//! yield goes to the charity, what is deposited again, and which percentage
//! a topped-up pool carries. Integer arithmetic only; every division rounds
//! down.

use vstd::prelude::*;

verus! {

/// The largest donation percentage.
pub const MAX_PERCENTAGE: u16 = 100;

/// The smallest donation percentage that a deposit may ask for.
pub const MIN_DEPOSIT_PERCENTAGE: u16 = 5;

/// The smallest deposit that starts a saga.
pub const MIN_DEPOSIT: u128 = 1000;

/// The yield in a redeemed balance: what it holds beyond the principal, never below zero.
pub open spec fn accrued_yield_spec(redeemed: nat, prior_principal: nat) -> nat {
    if redeemed > prior_principal {
        (redeemed - prior_principal) as nat
    } else {
        0
    }
}

/// The charity's cut of a yield.
pub open spec fn charity_share_spec(accrued: nat, percentage: nat) -> nat {
    accrued * percentage / 100
}

/// The charity's cut when a top-up settles.
pub open spec fn deposit_charity_spec(redeemed: nat, prior_principal: nat, percentage: nat) -> nat {
    charity_share_spec(accrued_yield_spec(redeemed, prior_principal), percentage)
}

/// What goes back into the lending venue when a top-up settles.
pub open spec fn reinvest_spec(redeemed: nat, new_deposit: nat, charity: nat) -> int {
    redeemed + new_deposit - charity
}

/// The value-weighted average of the pool's percentage and the newly requested one.
pub open spec fn blended_percentage_spec(
    prior_principal: nat,
    prior_percentage: nat,
    new_deposit: nat,
    requested_percentage: nat,
) -> nat {
    (prior_principal * prior_percentage + new_deposit * requested_percentage) / (prior_principal
        + new_deposit)
}

/// The charity's cut when a withdrawal settles: the cut of the yield, but never
/// more than was redeemed.
pub open spec fn withdraw_charity_spec(redeemed: nat, prior_principal: nat, percentage: nat) -> nat {
    let share = deposit_charity_spec(redeemed, prior_principal, percentage);
    if share > redeemed {
        redeemed
    } else {
        share
    }
}

/// The most that a depositor can get of a redeemed balance: what the
/// charity's cut leaves of it.
pub open spec fn withdraw_cap_spec(redeemed: nat, charity: nat) -> nat {
    if redeemed > charity {
        (redeemed - charity) as nat
    } else {
        0
    }
}

/// What the depositor gets: what was asked for, but never more than is left
/// of the redeemed balance after the charity's cut.
pub open spec fn capped_withdraw_spec(requested: nat, redeemed: nat, charity: nat) -> nat {
    if requested > withdraw_cap_spec(redeemed, charity) {
        withdraw_cap_spec(redeemed, charity)
    } else {
        requested
    }
}

/// Whether a wrapper balance is too small to keep a percentage for.
pub open spec fn is_dust_spec(balance: nat, theta: nat) -> bool {
    balance <= theta
}

/// The percentage that a pool keeps once a stage has settled with `balance` wrapper tokens.
pub open spec fn settled_percentage_spec(percentage: u16, balance: nat, theta: nat) -> u16 {
    if is_dust_spec(balance, theta) {
        0
    } else {
        percentage
    }
}

/// A cut of at most 100 percent is at most the whole.
pub proof fn lemma_share_bounded(accrued: nat, percentage: nat)
    requires
        percentage <= 100,
    ensures
        charity_share_spec(accrued, percentage) <= accrued,
{
    assert(accrued * percentage <= accrued * 100) by (nonlinear_arith)
        requires
            percentage <= 100,
    ;
}

/// The charity's cut never touches the principal: with a percentage of at
/// most 100 it is at most the yield, and so at most what was redeemed, when a
/// top-up settles and when a withdrawal does.
pub proof fn lemma_charity_never_skims_principal(
    redeemed: nat,
    prior_principal: nat,
    percentage: nat,
)
    requires
        percentage <= 100,
    ensures
        deposit_charity_spec(redeemed, prior_principal, percentage) <= accrued_yield_spec(
            redeemed,
            prior_principal,
        ),
        deposit_charity_spec(redeemed, prior_principal, percentage) <= redeemed,
        withdraw_charity_spec(redeemed, prior_principal, percentage) == deposit_charity_spec(
            redeemed,
            prior_principal,
            percentage,
        ),
        withdraw_charity_spec(redeemed, prior_principal, percentage) + prior_principal <= redeemed
            || withdraw_charity_spec(redeemed, prior_principal, percentage) == 0,
{
    lemma_share_bounded(accrued_yield_spec(redeemed, prior_principal), percentage);
}

/// The blended percentage lies between the two percentages it averages, and
/// a top-up of nothing leaves the pool's percentage as it was.
pub proof fn lemma_blended_percentage_bounds(
    prior_principal: nat,
    prior_percentage: nat,
    new_deposit: nat,
    requested_percentage: nat,
)
    requires
        prior_principal + new_deposit > 0,
    ensures
        prior_percentage <= requested_percentage ==> prior_percentage <= blended_percentage_spec(
            prior_principal,
            prior_percentage,
            new_deposit,
            requested_percentage,
        ) <= requested_percentage,
        requested_percentage <= prior_percentage ==> requested_percentage
            <= blended_percentage_spec(
            prior_principal,
            prior_percentage,
            new_deposit,
            requested_percentage,
        ) <= prior_percentage,
        new_deposit == 0 ==> blended_percentage_spec(
            prior_principal,
            prior_percentage,
            new_deposit,
            requested_percentage,
        ) == prior_percentage,
        prior_principal == 0 ==> blended_percentage_spec(
            prior_principal,
            prior_percentage,
            new_deposit,
            requested_percentage,
        ) == requested_percentage,
{
    let a = prior_principal as int;
    let p = prior_percentage as int;
    let b = new_deposit as int;
    let q = requested_percentage as int;
    let total = a + b;
    let weighted = a * p + b * q;
    if p <= q {
        lemma_average_between(a, p, b, q);
    } else {
        lemma_average_between(b, q, a, p);
        assert(b * q + a * p == weighted);
        assert(b + a == total);
    }
    if b == 0 {
        assert(weighted == p * total) by (nonlinear_arith)
            requires
                weighted == a * p + b * q,
                b == 0,
                total == a + b,
        ;
        vstd::arithmetic::div_mod::lemma_div_multiples_vanish(p, total);
    }
    if a == 0 {
        assert(weighted == q * total) by (nonlinear_arith)
            requires
                weighted == a * p + b * q,
                a == 0,
                total == a + b,
        ;
        vstd::arithmetic::div_mod::lemma_div_multiples_vanish(q, total);
    }
}

/// A weighted average of `lo` and `hi` lies between them.
proof fn lemma_average_between(a: int, lo: int, b: int, hi: int)
    requires
        0 <= a,
        0 <= b,
        a + b > 0,
        0 <= lo <= hi,
    ensures
        lo <= (a * lo + b * hi) / (a + b) <= hi,
{
    let total = a + b;
    let weighted = a * lo + b * hi;
    assert(lo * total <= weighted <= hi * total) by (nonlinear_arith)
        requires
            0 <= a,
            0 <= b,
            0 <= lo <= hi,
            total == a + b,
            weighted == a * lo + b * hi,
    ;
    vstd::arithmetic::div_mod::lemma_div_is_ordered(lo * total, weighted, total);
    vstd::arithmetic::div_mod::lemma_div_is_ordered(weighted, hi * total, total);
    vstd::arithmetic::div_mod::lemma_div_multiples_vanish(lo, total);
    vstd::arithmetic::div_mod::lemma_div_multiples_vanish(hi, total);
}

/// The yield in a redeemed balance.
pub fn accrued_yield(redeemed: u64, prior_principal: u64) -> (accrued: u64)
    ensures
        accrued == accrued_yield_spec(redeemed as nat, prior_principal as nat),
{
    if prior_principal > redeemed {
        0
    } else {
        redeemed - prior_principal
    }
}

/// The charity's cut of a yield, for a percentage of at most 100.
pub fn charity_share(accrued: u64, percentage: u16) -> (share: u64)
    requires
        percentage <= MAX_PERCENTAGE,
    ensures
        share == charity_share_spec(accrued as nat, percentage as nat),
        share <= accrued,
{
    proof {
        lemma_share_bounded(accrued as nat, percentage as nat);
        assert(accrued * percentage <= 0xffff_ffff_ffff_ffff * 100) by (nonlinear_arith)
            requires
                accrued <= 0xffff_ffff_ffff_ffff,
                percentage <= 100,
        ;
    }
    let product: u128 = (accrued as u128) * (percentage as u128);
    (product / 100) as u64
}

/// What goes back into the lending venue when a top-up settles, or `None`
/// where that amount cannot be held: it is below zero or does not fit in 64 bits.
pub fn reinvest_amount(redeemed: u64, new_deposit: u64, charity: u64) -> (amount: Option<u64>)
    ensures
        match amount {
            Some(a) => a == reinvest_spec(redeemed as nat, new_deposit as nat, charity as nat),
            None => {
                ||| reinvest_spec(redeemed as nat, new_deposit as nat, charity as nat) < 0
                ||| reinvest_spec(redeemed as nat, new_deposit as nat, charity as nat) > u64::MAX
            },
        },
{
    let available: u128 = redeemed as u128 + new_deposit as u128;
    if charity as u128 > available {
        return None;
    }
    let left: u128 = available - charity as u128;
    if left > u64::MAX as u128 {
        None
    } else {
        Some(left as u64)
    }
}

/// The percentage that a pool carries after a top-up, for a pool and a
/// top-up that are not both empty.
pub fn blended_percentage(
    prior_principal: u64,
    prior_percentage: u16,
    new_deposit: u64,
    requested_percentage: u16,
) -> (blended: u16)
    requires
        prior_principal as nat + new_deposit as nat > 0,
    ensures
        blended == blended_percentage_spec(
            prior_principal as nat,
            prior_percentage as nat,
            new_deposit as nat,
            requested_percentage as nat,
        ),
        prior_percentage <= requested_percentage ==> prior_percentage <= blended
            <= requested_percentage,
        requested_percentage <= prior_percentage ==> requested_percentage <= blended
            <= prior_percentage,
        new_deposit == 0 ==> blended == prior_percentage,
{
    proof {
        lemma_blended_percentage_bounds(
            prior_principal as nat,
            prior_percentage as nat,
            new_deposit as nat,
            requested_percentage as nat,
        );
        assert(prior_principal * prior_percentage <= 0xffff_ffff_ffff_ffff * 0xffff)
            by (nonlinear_arith)
            requires
                prior_principal <= 0xffff_ffff_ffff_ffff,
                prior_percentage <= 0xffff,
        ;
        assert(new_deposit * requested_percentage <= 0xffff_ffff_ffff_ffff * 0xffff)
            by (nonlinear_arith)
            requires
                new_deposit <= 0xffff_ffff_ffff_ffff,
                requested_percentage <= 0xffff,
        ;
    }
    let weighted: u128 = (prior_principal as u128) * (prior_percentage as u128) + (
    new_deposit as u128) * (requested_percentage as u128);
    let total: u128 = prior_principal as u128 + new_deposit as u128;
    (weighted / total) as u16
}

/// The charity's cut when a withdrawal settles, for a percentage of at most 100.
pub fn withdraw_charity(redeemed: u64, prior_principal: u64, percentage: u16) -> (share: u64)
    requires
        percentage <= MAX_PERCENTAGE,
    ensures
        share == withdraw_charity_spec(redeemed as nat, prior_principal as nat, percentage as nat),
        share <= redeemed,
        share <= accrued_yield_spec(redeemed as nat, prior_principal as nat),
{
    let share: u64 = charity_share(accrued_yield(redeemed, prior_principal), percentage);
    if share > redeemed {
        redeemed
    } else {
        share
    }
}

/// What the depositor gets of a redeemed balance: `requested`, capped at
/// what the charity's cut leaves. It never fails, whatever was asked for.
pub fn capped_withdraw(requested: u128, redeemed: u64, charity: u64) -> (amount: u64)
    ensures
        amount == capped_withdraw_spec(requested as nat, redeemed as nat, charity as nat),
        amount <= withdraw_cap_spec(redeemed as nat, charity as nat),
        amount <= requested,
        amount + charity <= redeemed || amount == 0,
{
    let cap: u64 = if redeemed > charity {
        redeemed - charity
    } else {
        0
    };
    if requested > cap as u128 {
        cap
    } else {
        requested as u64
    }
}

/// Whether a wrapper balance is dust: at or below the threshold.
pub fn is_dust(balance: u64, theta: u64) -> (dust: bool)
    ensures
        dust == is_dust_spec(balance as nat, theta as nat),
{
    balance <= theta
}

/// The percentage that a pool keeps once a stage has settled: zero where the
/// balance is dust, else unchanged.
pub fn settled_percentage(percentage: u16, balance: u64, theta: u64) -> (kept: u16)
    ensures
        kept == settled_percentage_spec(percentage, balance as nat, theta as nat),
        balance <= theta ==> kept == 0,
{
    if is_dust(balance, theta) {
        0
    } else {
        percentage
    }
}

} // verus!
