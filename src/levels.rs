//! Level arithmetic: a level is reached once the accumulated experience
//! covers the cost of every level below it.
use vstd::arithmetic::mul::{lemma_mul_inequality, lemma_mul_is_commutative};
use vstd::prelude::*;

verus! {

/// Experience it takes to go from `level` to the next level.
pub open spec fn level_cost(level: nat) -> nat {
    5 * level * level + 50 * level + 100
}

/// Total experience needed to reach `level` from nothing.
pub open spec fn xp_for_level(level: nat) -> nat
    decreases level,
{
    if level == 0 {
        0
    } else {
        (xp_for_level((level - 1) as nat) + level_cost((level - 1) as nat)) as nat
    }
}

/// `level` is the level of `xp`: its threshold is covered, the next one is not.
pub open spec fn is_level_of(xp: nat, level: nat) -> bool {
    xp_for_level(level) <= xp < xp_for_level(level + 1)
}

/// The level reached with `xp` experience.
pub open spec fn level_of(xp: nat) -> nat {
    choose|level: nat| is_level_of(xp, level)
}

/// The closed form of the cumulative threshold.
pub proof fn lemma_xp_for_level_closed_form(level: nat)
    ensures
        6 * xp_for_level(level) == 5 * level * (2 * level * level + 27 * level + 91),
    decreases level,
{
    if level > 0 {
        let p = (level - 1) as nat;
        lemma_xp_for_level_closed_form(p);
        let prev = 5 * p * (2 * p * p + 27 * p + 91);
        let cur = 5 * level * (2 * level * level + 27 * level + 91);
        assert(cur == prev + 6 * level_cost(p)) by (nonlinear_arith)
            requires
                level == p + 1,
                prev == 5 * p * (2 * p * p + 27 * p + 91),
                cur == 5 * level * (2 * level * level + 27 * level + 91),
                level_cost(p) == 5 * p * p + 50 * p + 100,
        ;
        assert(xp_for_level(level) == xp_for_level(p) + level_cost(p));
    } else {
        assert(5 * level * (2 * level * level + 27 * level + 91) == 0) by (nonlinear_arith)
            requires
                level == 0,
        ;
    }
}

/// Each level costs at least a hundred experience.
pub proof fn lemma_xp_for_level_lower_bound(level: nat)
    ensures
        xp_for_level(level) >= 100 * level,
    decreases level,
{
    if level > 0 {
        lemma_xp_for_level_lower_bound((level - 1) as nat);
    }
}

/// Thresholds grow strictly with the level.
pub proof fn lemma_xp_for_level_strictly_increasing(a: nat, b: nat)
    requires
        a < b,
    ensures
        xp_for_level(a) < xp_for_level(b),
    decreases b,
{
    if a + 1 < b {
        lemma_xp_for_level_strictly_increasing(a, (b - 1) as nat);
    }
}

/// At most one level brackets a given amount of experience.
pub proof fn lemma_level_unique(xp: nat, a: nat, b: nat)
    requires
        is_level_of(xp, a),
        is_level_of(xp, b),
    ensures
        a == b,
{
    if a < b {
        lemma_xp_for_level_strictly_increasing(a, b);
        if a + 1 < b {
            lemma_xp_for_level_strictly_increasing(a + 1, b);
        }
    } else if b < a {
        lemma_xp_for_level_strictly_increasing(b, a);
        if b + 1 < a {
            lemma_xp_for_level_strictly_increasing(b + 1, a);
        }
    }
}

/// Any level that brackets `xp` is `level_of(xp)`.
pub proof fn lemma_level_of_is(xp: nat, level: nat)
    requires
        is_level_of(xp, level),
    ensures
        level_of(xp) == level,
{
    let l = level_of(xp);
    assert(is_level_of(xp, l));
    lemma_level_unique(xp, l, level);
}

/// Every amount of experience has a level.
pub proof fn lemma_level_exists(xp: nat)
    ensures
        is_level_of(xp, level_of(xp)),
{
    let l = level_exists_witness(xp, 0);
    lemma_level_of_is(xp, l);
}

proof fn level_exists_witness(xp: nat, from: nat) -> (l: nat)
    requires
        xp_for_level(from) <= xp,
    ensures
        is_level_of(xp, l),
    decreases xp - xp_for_level(from),
{
    if xp < xp_for_level(from + 1) {
        from
    } else {
        level_exists_witness(xp, from + 1)
    }
}

/// The level never drops as experience grows, and the level of any amount of
/// experience brackets it: its own threshold is covered, the next one is not.
pub proof fn lemma_level_monotonic(x: nat, y: nat)
    requires
        x <= y,
    ensures
        level_of(x) <= level_of(y),
        xp_for_level(level_of(x)) <= x < xp_for_level(level_of(x) + 1),
{
    lemma_level_exists(x);
    lemma_level_exists(y);
    if level_of(y) < level_of(x) {
        lemma_xp_for_level_strictly_increasing(level_of(y), level_of(x));
        if level_of(y) + 1 < level_of(x) {
            lemma_xp_for_level_strictly_increasing(level_of(y) + 1, level_of(x));
        }
    }
}

/// The level of `xp` with the thresholds that bracket it.
fn bracket(xp: u64) -> (r: (u64, u128, u128))
    ensures
        is_level_of(xp as nat, r.0 as nat),
        r.1 == xp_for_level(r.0 as nat),
        r.2 == xp_for_level(r.0 as nat + 1),
{
    let mut level: u64 = 0;
    let mut reached: u128 = 0;
    let mut next: u128 = 100;
    assert(xp_for_level(1) == 100) by {
        reveal_with_fuel(xp_for_level, 2);
    }
    while next <= xp as u128
        invariant
            reached == xp_for_level(level as nat),
            reached <= xp,
            next == xp_for_level(level as nat + 1),
        decreases xp - xp_for_level(level as nat),
    {
        proof {
            lemma_xp_for_level_lower_bound(level as nat + 1);
        }
        let l = level as u128 + 1;
        assert(l * l <= 0x10_0000_0000_0000_0000_0000_0000_0000) by {
            let bound: int = 0x400_0000_0000_0000;
            assert(l <= bound);
            assert(bound * bound == 0x10_0000_0000_0000_0000_0000_0000_0000) by (nonlinear_arith)
                requires
                    bound == 0x400_0000_0000_0000,
            ;
            lemma_mul_inequality(l as int, bound, l as int);
            lemma_mul_inequality(l as int, bound, bound);
            lemma_mul_is_commutative(l as int, bound);
        }
        let square: u128 = l * l;
        let cost: u128 = 5 * square + 50 * l + 100;
        assert(cost == 5 * l * l + 50 * l + 100) by (nonlinear_arith)
            requires
                square == l * l,
                cost == 5 * square + 50 * l + 100,
        ;
        assert(xp_for_level(l as nat + 1) == next + cost);
        level = level + 1;
        reached = next;
        next = next + cost;
    }
    (level, reached, next)
}

/// The level reached with `xp` experience.
pub fn level_for_xp(xp: u64) -> (level: u64)
    ensures
        level == level_of(xp as nat),
        is_level_of(xp as nat, level as nat),
{
    let (level, _, _) = bracket(xp);
    proof {
        lemma_level_of_is(xp as nat, level as nat);
    }
    level
}

/// Percent of the way from the threshold of the current level to the next
/// one, rounded to the nearest whole percent, halves up.
pub open spec fn progress_percent_of(xp: nat) -> nat {
    let level = level_of(xp);
    let cost: int = level_cost(level) as int;
    let into: int = xp - xp_for_level(level);
    ((200 * into + cost) / (2 * cost)) as nat
}

/// How far `xp` has come towards the next level, in whole percent.
pub fn progress_percent(xp: u64) -> (r: u64)
    ensures
        r == progress_percent_of(xp as nat),
        r <= 100,
{
    let (level, reached, next) = bracket(xp);
    proof {
        lemma_level_of_is(xp as nat, level as nat);
    }
    let cost: u128 = next - reached;
    let into: u128 = xp as u128 - reached;
    assert(cost == level_cost(level as nat));
    assert(into < cost);
    proof {
        lemma_xp_for_level_lower_bound(level as nat);
        let lv = level as int;
        assert(lv <= 0x400_0000_0000_0000);
        assert(5 * lv * lv + 50 * lv + 100 <= 0x100_0000_0000_0000_0000_0000_0000_0000) by (
        nonlinear_arith)
            requires
                0 <= lv <= 0x400_0000_0000_0000,
        ;
    }
    let r: u128 = (200 * into + cost) / (2 * cost);
    assert(r <= 100) by (nonlinear_arith)
        requires
            into < cost,
            cost > 0,
            r == (200 * into + cost) / (2 * cost),
    ;
    r as u64
}

/// Total experience needed to reach `level`, when it fits in 64 bits.
pub fn xp_required(level: u64) -> (r: Option<u64>)
    ensures
        xp_for_level(level as nat) <= u64::MAX ==> r == Some(xp_for_level(level as nat) as u64),
        xp_for_level(level as nat) > u64::MAX ==> r is None,
{
    let limit: u64 = 3_000_000;
    proof {
        lemma_xp_for_level_closed_form(level as nat);
        lemma_xp_for_level_closed_form(limit as nat);
        assert(5 * limit * (2 * limit * limit + 27 * limit + 91) > 6 * 0xffff_ffff_ffff_ffffnat)
            by (nonlinear_arith)
            requires
                limit == 3_000_000,
        ;
    }
    if level > limit {
        proof {
            lemma_xp_for_level_strictly_increasing(limit as nat, level as nat);
        }
        return None;
    }
    let l = level as u128;
    assert(l * l <= 9_000_000_000_000) by (nonlinear_arith)
        requires
            l <= 3_000_000,
    ;
    let square: u128 = l * l;
    let inner: u128 = 2 * square + 27 * l + 91;
    assert(inner == 2 * l * l + 27 * l + 91) by (nonlinear_arith)
        requires
            square == l * l,
            inner == 2 * square + 27 * l + 91,
    ;
    let five_l: u128 = 5 * l;
    assert(five_l * inner <= 400_000_000_000_000_000_000) by (nonlinear_arith)
        requires
            five_l <= 15_000_000,
            inner <= 20_000_000_000_000,
    ;
    let total: u128 = five_l * inner / 6;
    assert(total == xp_for_level(level as nat));
    if total > u64::MAX as u128 {
        None
    } else {
        Some(total as u64)
    }
}

} // verus!
