//! What a session of game 01 is and how it changes, as the contracts see it.

use crate::game01::{
    Scene, BAR_MAX, BAR_WIDTH, BORDER, CHART_MARGIN, DESC_TEXTS, INPUT_LABEL, LOW_RESOURCE,
    MAX_PRESSES, MIN_WIN_PRESS_VAL, PLACES, PRESS_COST, PROGRESS_LABEL, RESOURCE_LABEL, SPEED,
    TITLE,
};
use crate::generator::perlin_of;
use crate::input::{action_of, Action, Event};
use crate::scene::{bar_units, longest, Bar, Overlay, Readout, Tone};
use crate::shared::{granule, round_to_places, GameState, Sound, ONE};
use crate::timing::Timing;
use noise::Perlin;
use vstd::prelude::*;

verus! {

/// What a session is, as the contracts see it.
pub struct Session {
    /// Set once the player asked to leave; the main loop ends on it.
    pub exit: bool,
    /// The input value: follows the noise, never set by the player.
    pub input_val: nat,
    /// The resource value: starts at `ONE` and only falls.
    pub resource_val: nat,
    /// The progress value: starts at 0 and only rises.
    pub progress_val: nat,
    pub timing: Timing,
    /// The seed that the session's noise generator was made from.
    pub seed: u32,
    pub state: GameState,
}

/// What one turn of the main loop takes in: the clock reading, the input that
/// was pending (`None` for none), the seed that a restart would draw, and the
/// noise sample for the per-tick update.
pub struct Frame {
    pub now: u64,
    pub pending: Option<Event>,
    pub seed: u32,
    pub sample: int,
}

/// What a press turns the input value `press_val` into: `press_val /
/// MAX_PRESSES / MIN_WIN_PRESS_VAL`, as a fixed-point value cut off after its
/// last digit, and at most `ONE`.
pub open spec fn gain(press_val: nat) -> nat {
    let raw = (press_val * ONE) / (MAX_PRESSES * MIN_WIN_PRESS_VAL) as int;
    if raw <= ONE {
        raw as nat
    } else {
        ONE as nat
    }
}

/// The input value for a noise sample: the sample, a fixed-point value
/// between `-ONE` and `ONE`, mapped onto 0 to `ONE`. A sample outside that
/// range counts as the nearer end of it.
pub open spec fn normalised(sample: int) -> nat {
    let clamped = if sample < -ONE {
        -ONE
    } else if sample > ONE {
        ONE as int
    } else {
        sample
    };
    ((clamped + ONE) / 2) as nat
}

impl Session {
    /// A session that starts at `now` with a generator seeded by `seed`.
    pub open spec fn fresh(now: u64, seed: u32) -> Session {
        Session {
            exit: false,
            input_val: 0,
            resource_val: ONE as nat,
            progress_val: 0,
            timing: Timing::fresh(now),
            seed,
            state: GameState::Playing,
        }
    }

    /// The session's noise generator: the one that its seed makes.
    pub open spec fn generator(self) -> Perlin {
        perlin_of(self.seed)
    }

    /// Whether two sessions differ in nothing but their clock readings and
    /// their seeds.
    pub open spec fn alike(self, other: Session) -> bool {
        &&& self.exit == other.exit
        &&& self.input_val == other.input_val
        &&& self.resource_val == other.resource_val
        &&& self.progress_val == other.progress_val
        &&& self.state == other.state
    }

    /// What holds of every session at all times: the three values lie between
    /// 0 and `ONE`; the resource value is a whole number of presses and the
    /// progress value has `PLACES` decimal places; a game that is being played
    /// has resource left and progress to make, a won game has full progress,
    /// and a lost game has no resource and progress to make.
    pub open spec fn inv(self) -> bool {
        &&& self.input_val <= ONE
        &&& self.resource_val <= ONE
        &&& self.progress_val <= ONE
        &&& self.resource_val % (PRESS_COST as nat) == 0
        &&& self.progress_val % granule(PLACES as nat) == 0
        &&& match self.state {
            GameState::Playing => self.resource_val > 0 && self.progress_val < ONE,
            GameState::Won => self.progress_val == ONE,
            GameState::Lost => self.resource_val == 0 && self.progress_val < ONE,
        }
    }

    /// The session after a tick of the clock at `now`.
    pub open spec fn advance_time(self, now: u64) -> Session {
        Session { timing: self.timing.advanced(now), ..self }
    }

    /// The session after the per-tick update with the noise sample `sample`.
    pub open spec fn tick(self, sample: int) -> Session {
        Session { input_val: normalised(sample), ..self }
    }

    /// Where on the noise the input value is read: `SPEED` positions per
    /// second of elapsed time, in billionths of a position.
    pub open spec fn noise_position(self) -> nat {
        (self.timing.elapsed * SPEED) as nat
    }

    /// The progress value after a press.
    pub open spec fn progress_after_press(self) -> nat {
        let raised = self.progress_val + gain(self.input_val);
        round_to_places(
            if raised <= ONE {
                raised
            } else {
                ONE as nat
            },
            PLACES as nat,
        )
    }

    /// The resource value after a press.
    pub open spec fn resource_after_press(self) -> nat {
        round_to_places(
            if self.resource_val >= PRESS_COST {
                (self.resource_val - PRESS_COST) as nat
            } else {
                0
            },
            PLACES as nat,
        )
    }

    /// The session after the confirm key: nothing changes once the game is
    /// over; in play the press is paid for and turned into progress, and the
    /// game is won if progress is full, else lost if the resource is gone.
    pub open spec fn confirm(self) -> Session {
        if self.state.is_over() {
            self
        } else {
            let progress_val = self.progress_after_press();
            let resource_val = self.resource_after_press();
            Session {
                progress_val,
                resource_val,
                state: if progress_val >= ONE {
                    GameState::Won
                } else if resource_val == 0 {
                    GameState::Lost
                } else {
                    GameState::Playing
                },
                ..self
            }
        }
    }

    /// The sound cue that the confirm key calls for: none once the game is
    /// over, else the cue of what the press led to.
    pub open spec fn confirm_cue(self) -> Option<Sound> {
        if self.state.is_over() {
            None
        } else {
            Some(
                match self.confirm().state {
                    GameState::Won => Sound::Win,
                    GameState::Lost => Sound::Lose,
                    GameState::Playing => Sound::Confirm,
                },
            )
        }
    }

    /// The session after `times` presses of the confirm key.
    pub open spec fn confirmed(self, times: nat) -> Session
        decreases times,
    {
        if times == 0 {
            self
        } else {
            self.confirm().confirmed((times - 1) as nat)
        }
    }

    /// The session after one press of the confirm key for each of `samples`,
    /// each press right after the per-tick update with its sample.
    pub open spec fn presses(self, samples: Seq<int>) -> Session
        decreases samples.len(),
    {
        if samples.len() == 0 {
            self
        } else {
            self.tick(samples.first()).confirm().presses(samples.drop_first())
        }
    }

    /// The session after the quit key: the exit flag is set.
    pub open spec fn quit(self) -> Session {
        Session { exit: true, ..self }
    }

    /// The session after the key that accepts a restart: once the game is
    /// over, a fresh session that starts at the latest tick with a generator
    /// seeded by `seed`; in play, nothing changes.
    pub open spec fn accept_restart(self, seed: u32) -> Session {
        if self.state.is_over() {
            Session::fresh(self.timing.now, seed)
        } else {
            self
        }
    }

    /// The session after the key that declines a restart: once the game is
    /// over the exit flag is set; in play, nothing changes.
    pub open spec fn decline_restart(self) -> Session {
        if self.state.is_over() {
            self.quit()
        } else {
            self
        }
    }

    /// The session after `action`; `seed` is the seed that a restart takes.
    pub open spec fn apply(self, action: Action, seed: u32) -> Session {
        match action {
            Action::Quit => self.quit(),
            Action::Confirm => self.confirm(),
            Action::AcceptRestart => self.accept_restart(seed),
            Action::DeclineRestart => self.decline_restart(),
        }
    }

    /// The session after the input `pending`, where `None` stands for no
    /// input at all: input that asks for no action changes nothing.
    pub open spec fn handle(self, pending: Option<Event>, seed: u32) -> Session {
        match pending {
            Some(event) => match action_of(event) {
                Some(action) => self.apply(action, seed),
                None => self,
            },
            None => self,
        }
    }

    /// The sound cue that the input `pending` calls for: only the confirm key
    /// makes a sound.
    pub open spec fn cue(self, pending: Option<Event>) -> Option<Sound> {
        match pending {
            Some(event) => match action_of(event) {
                Some(Action::Confirm) => self.confirm_cue(),
                _ => None,
            },
            None => None,
        }
    }

    /// The session after one turn of the main loop: the clock is read, then
    /// the pending input is taken, then the per-tick update runs.
    pub open spec fn frame(self, frame: Frame) -> Session {
        self.advance_time(frame.now).handle(frame.pending, frame.seed).tick(frame.sample)
    }

    /// The session after the main loop ran on `frames`: it takes one frame
    /// per turn and ends at the first turn that finds the exit flag set.
    pub open spec fn run(self, frames: Seq<Frame>) -> Session
        decreases frames.len(),
    {
        if frames.len() == 0 || self.exit {
            self
        } else {
            self.frame(frames.first()).run(frames.drop_first())
        }
    }

    /// Whether `frame` restarts the session: its input accepts a restart and
    /// the game is over.
    pub open spec fn restarted_by(self, frame: Frame) -> bool {
        &&& self.state.is_over()
        &&& frame.pending matches Some(event)
        &&& action_of(event) == Some(Action::AcceptRestart)
    }

    /// Whether the main loop, run on `frames`, restarts the session at some
    /// turn.
    pub open spec fn restarted_during(self, frames: Seq<Frame>) -> bool
        decreases frames.len(),
    {
        if frames.len() == 0 || self.exit {
            false
        } else {
            self.restarted_by(frames.first()) || self.frame(frames.first()).restarted_during(
                frames.drop_first(),
            )
        }
    }

    /// The tone of the resource bar: a warning from `LOW_RESOURCE` down.
    pub open spec fn resource_tone(self) -> Tone {
        if self.resource_val <= LOW_RESOURCE {
            Tone::Warning
        } else {
            Tone::Plain
        }
    }

    /// The tone of the progress bar: it shows how the game ended.
    pub open spec fn progress_tone(self) -> Tone {
        match self.state {
            GameState::Playing => Tone::Plain,
            GameState::Won => Tone::Success,
            GameState::Lost => Tone::Failure,
        }
    }

    /// What a frame shows of the session.
    pub open spec fn scene(self) -> Scene {
        Scene {
            title: TITLE,
            description: DESC_TEXTS,
            description_width: (longest(DESC_TEXTS@) + BORDER) as u16,
            description_height: (DESC_TEXTS@.len() + BORDER) as u16,
            input_bar: Bar {
                label: INPUT_LABEL,
                value: bar_units(self.input_val, BAR_MAX as nat) as u64,
                tone: Tone::Plain,
            },
            resource_bar: Bar {
                label: RESOURCE_LABEL,
                value: bar_units(self.resource_val, BAR_MAX as nat) as u64,
                tone: self.resource_tone(),
            },
            progress_bar: Bar {
                label: PROGRESS_LABEL,
                value: bar_units(self.progress_val, BAR_MAX as nat) as u64,
                tone: self.progress_tone(),
            },
            bar_max: BAR_MAX,
            bar_width: BAR_WIDTH,
            chart_width: (3 * BAR_WIDTH + CHART_MARGIN) as u16,
            readout: Readout::of(self.timing.delta_time),
            overlay: Overlay::of(self.state),
        }
    }
}

} // verus!
