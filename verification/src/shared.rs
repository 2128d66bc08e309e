//! Fixed-point arithmetic, the play-through state and the sound cues that
//! both games use.

use vstd::arithmetic::power::pow;
use vstd::prelude::*;

verus! {

/// Decimal digits behind the point of a fixed-point value.
pub const DECIMALS: usize = 6;

/// The fixed-point value that stands for 1.0: a value `v` stands for the
/// fraction `v / ONE`.
pub const ONE: u64 = 1_000_000;

/// Where a play-through stands. `Won` and `Lost` are final until the session
/// is restarted.
#[derive(Debug, Clone, Copy, PartialEq, Eq, Structural)]
pub enum GameState {
    Playing,
    Won,
    Lost,
}

/// A short sound cue for the audio player to start. A cue is fire and forget:
/// the games never wait for one to end.
#[derive(Debug, Clone, Copy, PartialEq, Eq, Structural)]
pub enum Sound {
    /// Stepping back; neither game asks for it yet.
    Back,
    /// A key press that was taken and did not end the game.
    Confirm,
    /// The key press that won the game.
    Win,
    /// The key press that lost the game.
    Lose,
}

impl GameState {
    /// `Won` or `Lost`.
    pub open spec fn is_over(self) -> bool {
        self != GameState::Playing
    }
}

/// Distance between two neighbouring values that have `places` decimal
/// places: `10^(DECIMALS - places)`, and 1 from `DECIMALS` places on.
pub open spec fn granule(places: nat) -> nat {
    if places >= DECIMALS {
        1
    } else {
        pow(10, (DECIMALS - places) as nat) as nat
    }
}

/// `target` rounded to the nearest multiple of `granule(places)`; a value
/// halfway between two multiples goes to the upper one.
pub open spec fn round_to_places(target: nat, places: nat) -> nat {
    let g = granule(places);
    ((target + g / 2) / g * g) as nat
}

/// The nearest whole number to `num / den`, halves upward.
pub open spec fn div_round(num: nat, den: nat) -> nat
    recommends
        den > 0,
{
    (2 * num + den) / (2 * den)
}

/// `div_round` gives the whole number nearest to the quotient: twice the
/// numerator lies within one denominator of twice the product, and on a tie
/// the upper whole number is taken.
pub proof fn lemma_div_round_is_nearest(num: nat, den: nat)
    requires
        den > 0,
    ensures
        2 * den * div_round(num, den) <= 2 * num + den < 2 * den * (div_round(num, den) + 1),
{
    let n = (2 * num + den) as int;
    let d = (2 * den) as int;
    assert(d * (n / d) <= n < d * (n / d + 1)) by (nonlinear_arith)
        requires
            d > 0,
            n >= 0,
    ;
}

/// A granule is a power of ten between 1 and `ONE`, and each further decimal
/// place divides it by ten.
pub proof fn lemma_granule_bounds(places: nat)
    ensures
        1 <= granule(places) <= ONE,
        places < DECIMALS ==> granule(places) == 10 * granule(places + 1),
        granule(0) == ONE,
        granule(2) == 10_000,
{
    reveal_with_fuel(pow, 8);
}

/// The result of rounding is a multiple of the granule, lies within half a
/// granule of `target`, and is the upper multiple on a tie.
pub proof fn lemma_round_is_nearest(target: nat, places: nat)
    ensures
        round_to_places(target, places) % granule(places) == 0,
        2 * round_to_places(target, places) <= 2 * target + granule(places),
        places < DECIMALS ==> 2 * target < 2 * round_to_places(target, places) + granule(places),
        places >= DECIMALS ==> round_to_places(target, places) == target,
{
    lemma_granule_bounds(places);
    let g = granule(places) as int;
    let n = target + g / 2;
    assert(n == g * (n / g) + n % g && 0 <= n % g < g && n / g >= 0 && n / g * g == g * (n / g))
        by (nonlinear_arith)
        requires
            g > 0,
            n >= 0,
    ;
    assert((n / g * g) % g == 0) by (nonlinear_arith)
        requires
            g > 0,
    ;
}

/// Rounding leaves a multiple of the granule as it is.
pub proof fn lemma_round_keeps_multiples(target: nat, places: nat)
    requires
        target % granule(places) == 0,
    ensures
        round_to_places(target, places) == target,
{
    lemma_granule_bounds(places);
    let g = granule(places) as int;
    let t = target as int;
    let h = g / 2;
    assert((t + h) / g * g == t) by (nonlinear_arith)
        requires
            g > 0,
            t >= 0,
            t % g == 0,
            0 <= h < g,
    ;
}

/// Rounding keeps the order of its arguments.
pub proof fn lemma_round_is_monotone(low: nat, high: nat, places: nat)
    requires
        low <= high,
    ensures
        round_to_places(low, places) <= round_to_places(high, places),
{
    lemma_granule_bounds(places);
    let g = granule(places) as int;
    let a = low + g / 2;
    let b = high + g / 2;
    assert(a / g * g <= b / g * g && a / g >= 0) by (nonlinear_arith)
        requires
            g > 0,
            0 <= a <= b,
    ;
}

/// Rounds `target` to `num_places` decimal places, halves upward.
///
/// The one input left out is a `target` so close to `u64::MAX` that the
/// rounded value may not fit.
pub fn round_precise(target: u64, num_places: usize) -> (rounded: u64)
    requires
        target + granule(num_places as nat) / 2 <= u64::MAX,
    ensures
        rounded == round_to_places(target as nat, num_places as nat),
        rounded % (granule(num_places as nat) as u64) == 0,
        2 * rounded <= 2 * target + granule(num_places as nat),
        num_places < DECIMALS ==> 2 * target < 2 * rounded + granule(num_places as nat),
        num_places >= DECIMALS ==> rounded == target,
{
    let mut g: u64 = 1;
    let mut places: usize = DECIMALS;
    proof {
        lemma_granule_bounds(places as nat);
    }
    while places > num_places
        invariant
            places <= DECIMALS,
            places >= num_places || places == DECIMALS,
            g == granule(places as nat),
        decreases places,
    {
        proof {
            lemma_granule_bounds((places - 1) as nat);
        }
        places = places - 1;
        g = g * 10;
    }
    proof {
        lemma_granule_bounds(num_places as nat);
        lemma_round_is_nearest(target as nat, num_places as nat);
    }
    let lifted: u64 = target + g / 2;
    (lifted / g) * g
}

} // verus!
