//! What holds of every session of game 01.

use crate::game01::session::{gain, normalised, Frame, Session};
use crate::game01::{DESC_TEXTS, MAX_PRESSES, MIN_WIN_PRESS_VAL, PLACES, PRESS_COST};
use crate::input::{press_of, ACCEPT_KEY, CONFIRM_KEY, DECLINE_KEY, QUIT_KEY};
use crate::scene::{lemma_ascii_length, longest};
use crate::shared::{
    granule, lemma_granule_bounds, lemma_round_is_monotone, lemma_round_is_nearest,
    lemma_round_keeps_multiples, GameState, ONE,
};
use vstd::prelude::*;

verus! {

/// The gain is the exact quotient `press_val * ONE / (MAX_PRESSES *
/// MIN_WIN_PRESS_VAL)` cut off after its last digit; for an input value of
/// at most `ONE` the cap at `ONE` never applies.
pub proof fn lemma_gain(press_val: nat)
    requires
        press_val <= ONE,
    ensures
        MAX_PRESSES * MIN_WIN_PRESS_VAL == 7_500_000,
        7_500_000 * gain(press_val) <= ONE * press_val < 7_500_000 * (gain(press_val) + 1),
        gain(press_val) <= ONE,
        press_val >= MIN_WIN_PRESS_VAL <==> gain(press_val) >= PRESS_COST,
{
}

/// The confirm key keeps the invariant, never raises the resource value and
/// never lowers the progress value. In play it takes `PRESS_COST` from the
/// resource value, no more and no less.
pub proof fn lemma_press(s: Session)
    requires
        s.inv(),
    ensures
        s.confirm().inv(),
        s.confirm().resource_val <= s.resource_val,
        s.confirm().progress_val >= s.progress_val,
        gain(s.input_val) <= ONE,
        s.state == GameState::Playing ==> s.confirm().resource_val == s.resource_val - PRESS_COST,
{
    lemma_granule_bounds(PLACES as nat);
    if s.state == GameState::Playing {
        let raised = s.progress_val + gain(s.input_val);
        let capped = if raised <= ONE {
            raised
        } else {
            ONE as nat
        };
        lemma_round_is_nearest(capped, PLACES as nat);
        lemma_round_is_monotone(s.progress_val, capped, PLACES as nat);
        lemma_round_is_monotone(capped, ONE as nat, PLACES as nat);
        lemma_round_keeps_multiples(s.progress_val, PLACES as nat);
        lemma_round_keeps_multiples(ONE as nat, PLACES as nat);
        let paid = (s.resource_val - PRESS_COST) as nat;
        lemma_round_keeps_multiples(paid, PLACES as nat);
    }
}

/// Cutting the gain off after its last digit loses nothing: the progress
/// value after a press is the value with `PLACES` decimal places nearest to
/// the exact sum `progress_val + input_val * ONE / (MAX_PRESSES *
/// MIN_WIN_PRESS_VAL)`, capped at `ONE`, with a tie going upward. The sum is
/// stated here multiplied by `MAX_PRESSES * MIN_WIN_PRESS_VAL`, which makes
/// it a whole number.
pub proof fn lemma_press_is_exact(s: Session)
    requires
        s.inv(),
    ensures
        ({
            let scale = MAX_PRESSES * MIN_WIN_PRESS_VAL;
            let sum = scale * s.progress_val + ONE * s.input_val;
            let capped = if sum <= scale * ONE {
                sum
            } else {
                scale * ONE
            };
            let after = s.progress_after_press();
            let half = granule(PLACES as nat) / 2;
            &&& after % granule(PLACES as nat) == 0
            &&& scale * (after - half) <= capped < scale * (after + half)
        }),
{
    lemma_granule_bounds(PLACES as nat);
    lemma_gain(s.input_val);
    let raised = s.progress_val + gain(s.input_val);
    let capped = if raised <= ONE {
        raised
    } else {
        ONE as nat
    };
    lemma_round_is_nearest(capped, PLACES as nat);
    lemma_round_keeps_multiples(ONE as nat, PLACES as nat);
}

/// One turn of the main loop keeps the invariant; unless it restarts the
/// session it never raises the resource value and never lowers the progress
/// value, and it leaves a game that is over as it is.
pub proof fn lemma_frame(s: Session, frame: Frame)
    requires
        s.inv(),
    ensures
        s.frame(frame).inv(),
        !s.restarted_by(frame) ==> s.frame(frame).resource_val <= s.resource_val,
        !s.restarted_by(frame) ==> s.frame(frame).progress_val >= s.progress_val,
        !s.restarted_by(frame) && s.state.is_over() ==> {
            &&& s.frame(frame).state == s.state
            &&& s.frame(frame).resource_val == s.resource_val
            &&& s.frame(frame).progress_val == s.progress_val
        },
{
    lemma_granule_bounds(PLACES as nat);
    lemma_press(s.advance_time(frame.now));
}

/// At all times the three values lie between 0 and `ONE`: whatever the main
/// loop is run on, the session keeps its invariant.
pub proof fn lemma_run_keeps_invariant(s: Session, frames: Seq<Frame>)
    requires
        s.inv(),
    ensures
        s.run(frames).inv(),
        s.run(frames).input_val <= ONE,
        s.run(frames).resource_val <= ONE,
        s.run(frames).progress_val <= ONE,
    decreases frames.len(),
{
    if frames.len() > 0 && !s.exit {
        lemma_frame(s, frames.first());
        lemma_run_keeps_invariant(s.frame(frames.first()), frames.drop_first());
    }
}

/// Within one play-through, that is as long as the session is not restarted,
/// the resource value never rises and the progress value never falls.
pub proof fn lemma_values_move_one_way(s: Session, frames: Seq<Frame>)
    requires
        s.inv(),
        !s.restarted_during(frames),
    ensures
        s.run(frames).resource_val <= s.resource_val,
        s.run(frames).progress_val >= s.progress_val,
    decreases frames.len(),
{
    if frames.len() > 0 && !s.exit {
        lemma_frame(s, frames.first());
        lemma_values_move_one_way(s.frame(frames.first()), frames.drop_first());
    }
}

/// A game that is over stays as it ended until the session is restarted:
/// neither its state nor its resource and progress values change.
pub proof fn lemma_game_over_is_final(s: Session, frames: Seq<Frame>)
    requires
        s.inv(),
        s.state.is_over(),
        !s.restarted_during(frames),
    ensures
        s.run(frames).state == s.state,
        s.run(frames).resource_val == s.resource_val,
        s.run(frames).progress_val == s.progress_val,
    decreases frames.len(),
{
    if frames.len() > 0 && !s.exit {
        lemma_frame(s, frames.first());
        lemma_game_over_is_final(s.frame(frames.first()), frames.drop_first());
    }
}

/// Once the game is over the confirm key does nothing and makes no sound,
/// however often it is pressed.
pub proof fn lemma_confirm_when_over(s: Session, times: nat, seed: u32)
    requires
        s.state.is_over(),
    ensures
        s.confirm() == s,
        s.confirm_cue() is None,
        s.confirmed(times) == s,
        s.handle(Some(press_of(CONFIRM_KEY)), seed) == s,
        s.cue(Some(press_of(CONFIRM_KEY))) is None,
    decreases times,
{
    if times > 0 {
        lemma_confirm_when_over(s, (times - 1) as nat, seed);
    }
}

/// Accepting a restart once the game is over gives a session that differs
/// from a newly made one in nothing but its clock readings and its seed: the
/// resource value is `ONE`, the progress and input values are 0, the game is
/// played and the exit flag is down. While the game is played the key does
/// nothing.
pub proof fn lemma_restart_is_fresh(s: Session, seed: u32)
    ensures
        !s.state.is_over() ==> s.accept_restart(seed) == s,
        s.state.is_over() ==> {
            let restarted = s.accept_restart(seed);
            &&& restarted == Session::fresh(s.timing.now, seed)
            &&& restarted == s.handle(Some(press_of(ACCEPT_KEY)), seed)
            &&& restarted.inv()
            &&& restarted.resource_val == ONE
            &&& restarted.progress_val == 0
            &&& restarted.input_val == 0
            &&& restarted.state == GameState::Playing
            &&& !restarted.exit
            &&& forall|now: u64, other: u32| restarted.alike(Session::fresh(now, other))
        },
{
    lemma_granule_bounds(PLACES as nat);
}

/// Quitting sets the exit flag in every state; declining a restart sets it
/// once the game is over and does nothing before; and the main loop takes no
/// further turn once the flag is set.
pub proof fn lemma_leaving(s: Session, frames: Seq<Frame>, seed: u32)
    ensures
        s.quit().exit,
        s.handle(Some(press_of(QUIT_KEY)), seed).exit,
        s.state.is_over() ==> s.decline_restart().exit,
        s.state.is_over() ==> s.handle(Some(press_of(DECLINE_KEY)), seed).exit,
        !s.state.is_over() ==> s.decline_restart() == s,
        s.exit ==> s.run(frames) == s,
{
}

/// A press at an input value of `MIN_WIN_PRESS_VAL` or more gains at least
/// what it costs. So a session whose progress and resource values add up to
/// `ONE` or more, as those of a fresh session do, cannot be lost by such a
/// press, and the two values still add up to `ONE` or more after it.
pub proof fn lemma_good_press_cannot_lose(s: Session)
    requires
        s.inv(),
        s.input_val >= MIN_WIN_PRESS_VAL,
        s.progress_val + s.resource_val >= ONE,
    ensures
        gain(s.input_val) >= PRESS_COST,
        s.confirm().progress_val + s.confirm().resource_val >= ONE,
        s.state != GameState::Lost ==> s.confirm().state != GameState::Lost,
{
    lemma_granule_bounds(PLACES as nat);
    lemma_gain(s.input_val);
    lemma_press(s);
    if s.state == GameState::Playing {
        let raised = s.progress_val + gain(s.input_val);
        let capped = if raised <= ONE {
            raised
        } else {
            ONE as nat
        };
        let floor = if s.progress_val + PRESS_COST <= ONE {
            (s.progress_val + PRESS_COST) as nat
        } else {
            ONE as nat
        };
        lemma_round_is_monotone(floor, capped, PLACES as nat);
        lemma_round_keeps_multiples(floor, PLACES as nat);
    }
}

/// The resource lasts for `MAX_PRESSES` presses and no longer: a session in
/// play is over after as many presses as its resource value holds, whatever
/// the input values are, and further presses leave it over.
pub proof fn lemma_presses_end_the_game(s: Session, samples: Seq<int>)
    requires
        s.inv(),
        s.state.is_over() || samples.len() * PRESS_COST >= s.resource_val,
    ensures
        s.presses(samples).inv(),
        s.presses(samples).state.is_over(),
        s.resource_val <= MAX_PRESSES * PRESS_COST,
    decreases samples.len(),
{
    if samples.len() > 0 {
        let pressed = s.tick(samples.first()).confirm();
        lemma_press(s.tick(samples.first()));
        if !s.state.is_over() {
            assert((samples.len() - 1) * PRESS_COST >= pressed.resource_val) by (nonlinear_arith)
                requires
                    samples.len() * PRESS_COST >= s.resource_val,
                    pressed.resource_val + PRESS_COST == s.resource_val,
            ;
        }
        lemma_presses_end_the_game(pressed, samples.drop_first());
    }
}

/// Presses that each find the input value at `MIN_WIN_PRESS_VAL` or above
/// win a session whose progress and resource values add up to `ONE` or more,
/// if there are as many of them as the resource value holds.
pub proof fn lemma_good_presses_win(s: Session, samples: Seq<int>)
    requires
        s.inv(),
        s.state != GameState::Lost,
        s.progress_val + s.resource_val >= ONE,
        s.state == GameState::Won || samples.len() * PRESS_COST >= s.resource_val,
        forall|i: int|
            0 <= i < samples.len() ==> normalised(#[trigger] samples[i]) >= MIN_WIN_PRESS_VAL,
    ensures
        s.presses(samples).state == GameState::Won,
        s.presses(samples).progress_val == ONE,
    decreases samples.len(),
{
    if samples.len() > 0 {
        let ticked = s.tick(samples.first());
        let pressed = ticked.confirm();
        lemma_press(ticked);
        lemma_good_press_cannot_lose(ticked);
        if s.state == GameState::Playing {
            assert((samples.len() - 1) * PRESS_COST >= pressed.resource_val) by (nonlinear_arith)
                requires
                    samples.len() * PRESS_COST >= s.resource_val,
                    pressed.resource_val + PRESS_COST == s.resource_val,
            ;
        }
        assert forall|i: int| 0 <= i < samples.drop_first().len() implies normalised(
            #[trigger] samples.drop_first()[i],
        ) >= MIN_WIN_PRESS_VAL by {
            assert(samples.drop_first()[i] == samples[i + 1]);
        }
        lemma_good_presses_win(pressed, samples.drop_first());
    }
}

/// A fresh session is won by `MAX_PRESSES` presses, or more, that each find
/// the input value at `MIN_WIN_PRESS_VAL` or above.
pub proof fn lemma_fresh_session_is_winnable(now: u64, seed: u32, samples: Seq<int>)
    requires
        samples.len() >= MAX_PRESSES,
        forall|i: int|
            0 <= i < samples.len() ==> normalised(#[trigger] samples[i]) >= MIN_WIN_PRESS_VAL,
    ensures
        Session::fresh(now, seed).presses(samples).state == GameState::Won,
        Session::fresh(now, seed).presses(samples).progress_val == ONE,
{
    lemma_granule_bounds(PLACES as nat);
    assert(samples.len() * PRESS_COST >= ONE) by (nonlinear_arith)
        requires
            samples.len() >= MAX_PRESSES,
            MAX_PRESSES * PRESS_COST == ONE,
    ;
    lemma_good_presses_win(Session::fresh(now, seed), samples);
}

/// Presses that each find the input value at 0 gain nothing: they leave the
/// progress value as it is and lose the game once the resource is used up,
/// which a fresh session's is after `MAX_PRESSES` of them.
pub proof fn lemma_idle_presses_lose(s: Session, samples: Seq<int>)
    requires
        s.inv(),
        s.state != GameState::Won,
        s.state == GameState::Lost || samples.len() * PRESS_COST >= s.resource_val,
        forall|i: int| 0 <= i < samples.len() ==> normalised(#[trigger] samples[i]) == 0,
    ensures
        s.presses(samples).state == GameState::Lost,
        s.presses(samples).progress_val == s.progress_val,
        s.presses(samples).resource_val == 0,
    decreases samples.len(),
{
    if samples.len() > 0 {
        let ticked = s.tick(samples.first());
        let pressed = ticked.confirm();
        lemma_gain(0);
        lemma_press(ticked);
        lemma_round_keeps_multiples(s.progress_val, PLACES as nat);
        if s.state == GameState::Playing {
            assert((samples.len() - 1) * PRESS_COST >= pressed.resource_val) by (nonlinear_arith)
                requires
                    samples.len() * PRESS_COST >= s.resource_val,
                    pressed.resource_val + PRESS_COST == s.resource_val,
            ;
        }
        assert forall|i: int| 0 <= i < samples.drop_first().len() implies normalised(
            #[trigger] samples.drop_first()[i],
        ) == 0 by {
            assert(samples.drop_first()[i] == samples[i + 1]);
        }
        lemma_idle_presses_lose(pressed, samples.drop_first());
    }
}

/// A scene depends on nothing but the three values, the state and the
/// length of the latest tick: two sessions that agree in these show the same.
pub proof fn lemma_scene_of_shown_values(a: Session, b: Session)
    requires
        a.input_val == b.input_val,
        a.resource_val == b.resource_val,
        a.progress_val == b.progress_val,
        a.state == b.state,
        a.timing.delta_time == b.timing.delta_time,
    ensures
        a.scene() == b.scene(),
{
}

/// The longest line of the description has 40 bytes, so its panel is 42
/// cells wide and 5 high.
pub proof fn lemma_description_size()
    ensures
        longest(DESC_TEXTS@) == 40,
        DESC_TEXTS@.len() == 3,
{
    reveal_strlit("Goal: Achieve Z, before running out of B");
    reveal_strlit("Controls: Spacebar");
    reveal_strlit("Quit: Q");
    let lines = DESC_TEXTS@;
    lemma_ascii_length(lines[0]);
    lemma_ascii_length(lines[1]);
    lemma_ascii_length(lines[2]);
    let two = lines.drop_last();
    let one = two.drop_last();
    assert(longest(one.drop_last()) == 0);
    assert(one.last() == lines[0] && two.last() == lines[1] && lines.last() == lines[2]);
    assert(longest(one) == 40);
    assert(longest(two) == 40);
}

} // verus!
