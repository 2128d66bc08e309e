//! Game 01: fill the progress value before the resource value runs out.
//!
//! Three values between 0 and 1 drive the game. The input value follows a
//! noise generator and changes with every tick. Each press of the confirm key
//! turns the current input value into progress and uses up a fixed share of
//! the resource. The game is won when progress is full and lost when the
//! resource is gone first.
//!
//! `App` is the session that runs; `session::Session` is what the contracts
//! say of it; `laws` holds what follows for every session.

pub mod laws;
pub mod session;

use crate::game01::laws::{lemma_description_size, lemma_press};
use crate::game01::session::Session;
use crate::generator::{fresh_seed, perlin_of};
use crate::input::{Action, Event};
use crate::scene::{bar_height, longest_line, Bar, Overlay, Readout, Tone};
use crate::shared::{lemma_granule_bounds, round_precise, GameState, Sound, ONE};
use crate::timing::Timing;
use noise::Perlin;
use vstd::prelude::*;

verus! {

/// The title on the frame.
pub const TITLE: &'static str = "01";

/// The lines that tell the player what to do.
pub const DESC_TEXTS: [&'static str; 3] = [
    "Goal: Achieve Z, before running out of B",
    "Controls: Spacebar",
    "Quit: Q",
];

/// Label of the bar that shows the input value.
pub const INPUT_LABEL: &'static str = "A";

/// Label of the bar that shows the resource value.
pub const RESOURCE_LABEL: &'static str = "B";

/// Label of the bar that shows the progress value.
pub const PROGRESS_LABEL: &'static str = "Z";

/// Height of a full bar, in chart units.
pub const BAR_MAX: u64 = 100;

/// How fast the input value moves: noise positions per second of play.
pub const SPEED: u64 = 2;

/// Presses that the resource lasts for. Together with `MIN_WIN_PRESS_VAL` it
/// sets the difficulty: `MAX_PRESSES` presses at an input value of
/// `MIN_WIN_PRESS_VAL` fill the progress value exactly.
pub const MAX_PRESSES: u64 = 10;

/// The input value that every press must reach for `MAX_PRESSES` presses to
/// win: 0.75.
pub const MIN_WIN_PRESS_VAL: u64 = 750_000;

/// What one press takes from the resource value.
pub const PRESS_COST: u64 = ONE / MAX_PRESSES;

/// The resource value from which down its bar warns: a quarter.
pub const LOW_RESOURCE: u64 = ONE / 4;

/// Decimal places that the resource and progress values are kept at.
pub const PLACES: usize = 2;

/// Width of one bar of the chart, in cells.
pub const BAR_WIDTH: u16 = 4;

/// Cells that a panel's border takes from its width, and from its height.
pub const BORDER: u16 = 2;

/// Cells between the bars of the chart and its border, both sides together.
pub const CHART_MARGIN: u16 = 4;

/// What a frame of game 01 shows.
#[derive(Debug, Clone, Copy, PartialEq, Eq)]
pub struct Scene {
    pub title: &'static str,
    /// The lines of the description panel.
    pub description: [&'static str; 3],
    /// Width of the description panel with its border, in cells.
    pub description_width: u16,
    /// Height of the description panel with its border, in cells.
    pub description_height: u16,
    pub input_bar: Bar,
    pub resource_bar: Bar,
    pub progress_bar: Bar,
    /// Height of a full bar, in chart units.
    pub bar_max: u64,
    /// Width of one bar, in cells.
    pub bar_width: u16,
    /// Width of the chart with its border, in cells.
    pub chart_width: u16,
    pub readout: Readout,
    /// The announcement of the game's end, once it is over.
    pub overlay: Option<Overlay>,
}

/// The state of one play-through of game 01.
#[derive(Debug)]
pub struct App {
    exit: bool,
    input_val: u64,
    resource_val: u64,
    progress_val: u64,
    timing: Timing,
    seed: u32,
    perlin: Perlin,
    game_state: GameState,
}

impl View for App {
    type V = Session;

    closed spec fn view(&self) -> Session {
        Session {
            exit: self.exit,
            input_val: self.input_val as nat,
            resource_val: self.resource_val as nat,
            progress_val: self.progress_val as nat,
            timing: self.timing,
            seed: self.seed,
            state: self.game_state,
        }
    }
}

impl App {
    /// Every session that exists is in the state that `Session::inv`
    /// describes, and its generator is the one that its seed makes.
    #[verifier::type_invariant]
    spec fn holds_inv(self) -> bool {
        &&& self@.inv()
        &&& self.perlin == perlin_of(self.seed)
    }

    /// Starts a session at the clock reading `now`, with a noise generator
    /// made from a seed drawn at random.
    pub fn new(now: u64) -> (app: App)
        ensures
            app@.inv(),
            app@ == Session::fresh(now, app@.seed),
    {
        App::with_seed(now, fresh_seed())
    }

    /// Starts a session at the clock reading `now`, with a noise generator
    /// made from `seed`.
    pub fn with_seed(now: u64, seed: u32) -> (app: App)
        ensures
            app@.inv(),
            app@ == Session::fresh(now, seed),
    {
        proof {
            lemma_granule_bounds(PLACES as nat);
        }
        App {
            exit: false,
            input_val: 0,
            resource_val: ONE,
            progress_val: 0,
            timing: Timing::new(now),
            seed,
            perlin: Perlin::new(seed),
            game_state: GameState::Playing,
        }
    }

    /// Whether the player asked to leave.
    pub fn should_exit(&self) -> (exit: bool)
        ensures
            exit == self@.exit,
    {
        self.exit
    }

    /// The input value, between 0 and `ONE`.
    pub fn input_val(&self) -> (val: u64)
        ensures
            val == self@.input_val,
            val <= ONE,
    {
        proof {
            use_type_invariant(self);
        }
        self.input_val
    }

    /// The resource value, between 0 and `ONE`.
    pub fn resource_val(&self) -> (val: u64)
        ensures
            val == self@.resource_val,
            val <= ONE,
    {
        proof {
            use_type_invariant(self);
        }
        self.resource_val
    }

    /// The progress value, between 0 and `ONE`.
    pub fn progress_val(&self) -> (val: u64)
        ensures
            val == self@.progress_val,
            val <= ONE,
    {
        proof {
            use_type_invariant(self);
        }
        self.progress_val
    }

    /// Where the play-through stands.
    pub fn game_state(&self) -> (state: GameState)
        ensures
            state == self@.state,
    {
        self.game_state
    }

    /// The session's clock readings.
    pub fn timing(&self) -> (timing: Timing)
        ensures
            timing == self@.timing,
    {
        self.timing
    }

    /// The seed that the session's noise generator was made from.
    pub fn seed(&self) -> (seed: u32)
        ensures
            seed == self@.seed,
    {
        self.seed
    }

    /// The session's noise generator, for the caller to sample: the one that
    /// the session's seed makes. It stays the same until the session is
    /// restarted.
    pub fn perlin(&self) -> (generator: &Perlin)
        ensures
            *generator == self@.generator(),
    {
        proof {
            use_type_invariant(self);
        }
        &self.perlin
    }

    /// Where on the noise the next input value is to be read, in billionths
    /// of a position: see `Session::noise_position`.
    pub fn noise_position(&self) -> (position: u128)
        ensures
            position == self@.noise_position(),
    {
        let elapsed: u128 = self.timing.elapsed as u128;
        let speed: u128 = SPEED as u128;
        elapsed * speed
    }

    /// Records the clock reading of a new tick.
    pub fn advance_time(&mut self, now: u64)
        ensures
            final(self)@.inv(),
            final(self)@ == old(self)@.advance_time(now),
    {
        proof {
            use_type_invariant(&*self);
        }
        let mut timing = self.timing;
        timing.advance(now);
        self.timing = timing;
    }

    /// The per-tick update: takes the input value from the noise sample
    /// `sample`, the generator's value at `noise_position()` as a fixed-point
    /// number between `-ONE` and `ONE`.
    pub fn tick(&mut self, sample: i64)
        ensures
            final(self)@.inv(),
            final(self)@ == old(self)@.tick(sample as int),
    {
        proof {
            use_type_invariant(&*self);
        }
        let one: i64 = ONE as i64;
        let clamped: i64 = if sample < -one {
            -one
        } else if sample > one {
            one
        } else {
            sample
        };
        let lifted: i64 = clamped + one;
        self.input_val = (lifted as u64) / 2;
    }

    /// Sets the exit flag.
    pub fn exit(&mut self)
        ensures
            final(self)@.inv(),
            final(self)@ == old(self)@.quit(),
            final(self)@.exit,
    {
        proof {
            use_type_invariant(&*self);
        }
        self.exit = true;
    }

    /// Puts the session back to its start: a fresh session at the latest
    /// tick, with a noise generator made from a seed drawn at random.
    pub fn reset(&mut self)
        ensures
            final(self)@.inv(),
            final(self)@ == Session::fresh(old(self)@.timing.now, final(self)@.seed),
    {
        self.reset_with(fresh_seed());
    }

    /// Puts the session back to its start: a fresh session at the latest
    /// tick, with a noise generator made from `seed`.
    pub fn reset_with(&mut self, seed: u32)
        ensures
            final(self)@.inv(),
            final(self)@ == Session::fresh(old(self)@.timing.now, seed),
    {
        *self = App::with_seed(self.timing.now, seed);
    }

    /// The confirm key: see `Session::confirm`. In play the press is paid for
    /// from the resource value and the input value is turned into progress;
    /// the sound cue tells how the press ended. Once the game is over the key
    /// does nothing.
    pub fn pressed_space(&mut self) -> (sound: Option<Sound>)
        ensures
            final(self)@.inv(),
            final(self)@ == old(self)@.confirm(),
            sound == old(self)@.confirm_cue(),
            final(self)@.resource_val <= old(self)@.resource_val,
            final(self)@.progress_val >= old(self)@.progress_val,
    {
        proof {
            use_type_invariant(&*self);
            lemma_granule_bounds(PLACES as nat);
            lemma_press(self@);
        }
        match self.game_state {
            GameState::Playing => {
                let raw: u64 = self.input_val * ONE / (MAX_PRESSES * MIN_WIN_PRESS_VAL);
                let gain: u64 = if raw <= ONE {
                    raw
                } else {
                    ONE
                };
                let raised: u64 = self.progress_val + gain;
                let capped: u64 = if raised <= ONE {
                    raised
                } else {
                    ONE
                };
                let paid: u64 = self.resource_val.saturating_sub(PRESS_COST);
                let progress_val: u64 = round_precise(capped, PLACES);
                let resource_val: u64 = round_precise(paid, PLACES);
                if progress_val >= ONE {
                    *self = App { progress_val, resource_val, game_state: GameState::Won, ..*self };
                    return Some(Sound::Win);
                } else if resource_val == 0 {
                    *self = App { progress_val, resource_val, game_state: GameState::Lost, ..*self };
                    return Some(Sound::Lose);
                }
                *self = App { progress_val, resource_val, ..*self };
                Some(Sound::Confirm)
            },
            _ => None,
        }
    }

    /// The key that accepts a restart: see `Session::accept_restart`.
    pub fn pressed_y(&mut self)
        ensures
            final(self)@.inv(),
            final(self)@ == old(self)@.accept_restart(final(self)@.seed),
    {
        proof {
            use_type_invariant(&*self);
        }
        match self.game_state {
            GameState::Won => {
                self.reset();
            },
            GameState::Lost => {
                self.reset();
            },
            _ => {},
        }
    }

    /// The key that declines a restart: see `Session::decline_restart`.
    pub fn pressed_n(&mut self)
        ensures
            final(self)@.inv(),
            final(self)@ == old(self)@.decline_restart(),
    {
        proof {
            use_type_invariant(&*self);
        }
        match self.game_state {
            GameState::Won => {
                self.exit();
            },
            GameState::Lost => {
                self.exit();
            },
            _ => {},
        }
    }

    /// Takes the input that was pending at this tick, `None` if there was
    /// none, and returns the sound cue to play. Only the press of a bound key
    /// does anything; a restart draws its seed at random.
    pub fn handle_events(&mut self, pending: Option<Event>) -> (sound: Option<Sound>)
        ensures
            final(self)@.inv(),
            final(self)@ == old(self)@.handle(pending, final(self)@.seed),
            sound == old(self)@.cue(pending),
    {
        proof {
            use_type_invariant(&*self);
        }
        match pending {
            Some(event) => match Action::from_event(&event) {
                Some(Action::Quit) => {
                    self.exit();
                    None
                },
                Some(Action::Confirm) => self.pressed_space(),
                Some(Action::AcceptRestart) => {
                    self.pressed_y();
                    None
                },
                Some(Action::DeclineRestart) => {
                    self.pressed_n();
                    None
                },
                None => None,
            },
            None => None,
        }
    }

    /// Describes the frame that shows the session. The session is only read:
    /// the same session gives the same scene.
    pub fn render(&self) -> (scene: Scene)
        ensures
            scene == self@.scene(),
    {
        proof {
            use_type_invariant(self);
            lemma_description_size();
        }
        let longest_line: usize = longest_line(DESC_TEXTS.as_slice());
        let resource_tone = if self.resource_val <= LOW_RESOURCE {
            Tone::Warning
        } else {
            Tone::Plain
        };
        let progress_tone = match self.game_state {
            GameState::Playing => Tone::Plain,
            GameState::Won => Tone::Success,
            GameState::Lost => Tone::Failure,
        };
        Scene {
            title: TITLE,
            description: DESC_TEXTS,
            description_width: longest_line as u16 + BORDER,
            description_height: DESC_TEXTS.len() as u16 + BORDER,
            input_bar: Bar {
                label: INPUT_LABEL,
                value: bar_height(self.input_val, BAR_MAX),
                tone: Tone::Plain,
            },
            resource_bar: Bar {
                label: RESOURCE_LABEL,
                value: bar_height(self.resource_val, BAR_MAX),
                tone: resource_tone,
            },
            progress_bar: Bar {
                label: PROGRESS_LABEL,
                value: bar_height(self.progress_val, BAR_MAX),
                tone: progress_tone,
            },
            bar_max: BAR_MAX,
            bar_width: BAR_WIDTH,
            chart_width: 3 * BAR_WIDTH + CHART_MARGIN,
            readout: Readout::new(self.timing.delta_time),
            overlay: Overlay::for_state(self.game_state),
        }
    }
}

} // verus!
