//! Game 02: the frame of a game whose mechanic is still to come.
//!
//! It has the clock, the keys and the states of game 01 and none of its
//! values: the confirm key only makes a sound, and nothing wins or loses the
//! game yet.

use crate::generator::{fresh_seed, perlin_of};
use crate::input::{
    action_of, press_of, Action, Event, ACCEPT_KEY, CONFIRM_KEY, DECLINE_KEY, QUIT_KEY,
};
use crate::scene::{Overlay, Readout};
use crate::shared::{GameState, Sound};
use crate::timing::Timing;
use noise::Perlin;
use vstd::prelude::*;

verus! {

/// The title on the frame.
pub const TITLE: &'static str = "02";

/// What a frame of game 02 shows.
#[derive(Debug, Clone, Copy, PartialEq, Eq)]
pub struct Scene {
    pub title: &'static str,
    pub readout: Readout,
    /// The announcement of the game's end, once it is over.
    pub overlay: Option<Overlay>,
}

/// What a session is, as the contracts see it.
pub struct Session {
    /// Set once the player asked to leave; the main loop ends on it.
    pub exit: bool,
    pub timing: Timing,
    /// The seed that the session's noise generator was made from.
    pub seed: u32,
    pub state: GameState,
}

/// What one turn of the main loop takes in: the clock reading, the input that
/// was pending (`None` for none) and the seed that a restart would draw.
pub struct Frame {
    pub now: u64,
    pub pending: Option<Event>,
    pub seed: u32,
}

impl Session {
    /// A session that starts at `now` with a generator seeded by `seed`.
    pub open spec fn fresh(now: u64, seed: u32) -> Session {
        Session { exit: false, timing: Timing::fresh(now), seed, state: GameState::Playing }
    }

    /// The session's noise generator: the one that its seed makes.
    pub open spec fn generator(self) -> Perlin {
        perlin_of(self.seed)
    }

    /// The session after a tick of the clock at `now`.
    pub open spec fn advance_time(self, now: u64) -> Session {
        Session { timing: self.timing.advanced(now), ..self }
    }

    /// The session after the quit key: the exit flag is set.
    pub open spec fn quit(self) -> Session {
        Session { exit: true, ..self }
    }

    /// The sound cue that the confirm key calls for: the confirmation cue in
    /// play, none once the game is over. The key changes nothing.
    pub open spec fn confirm_cue(self) -> Option<Sound> {
        if self.state.is_over() {
            None
        } else {
            Some(Sound::Confirm)
        }
    }

    /// The session after the key that accepts a restart: once the game is
    /// over, a fresh session that starts at the latest tick with a generator
    /// seeded by `seed`; in play, nothing changes.
    pub open spec fn accept_restart(self, seed: u32) -> Session {
        if self.state.is_over() {
            Session::fresh(self.timing.now, seed)
        } else {
            self
        }
    }

    /// The session after the key that declines a restart: once the game is
    /// over the exit flag is set; in play, nothing changes.
    pub open spec fn decline_restart(self) -> Session {
        if self.state.is_over() {
            self.quit()
        } else {
            self
        }
    }

    /// The session after `action`; `seed` is the seed that a restart takes.
    pub open spec fn apply(self, action: Action, seed: u32) -> Session {
        match action {
            Action::Quit => self.quit(),
            Action::Confirm => self,
            Action::AcceptRestart => self.accept_restart(seed),
            Action::DeclineRestart => self.decline_restart(),
        }
    }

    /// The session after the input `pending`, where `None` stands for no
    /// input at all: input that asks for no action changes nothing.
    pub open spec fn handle(self, pending: Option<Event>, seed: u32) -> Session {
        match pending {
            Some(event) => match action_of(event) {
                Some(action) => self.apply(action, seed),
                None => self,
            },
            None => self,
        }
    }

    /// The sound cue that the input `pending` calls for: only the confirm key
    /// makes a sound.
    pub open spec fn cue(self, pending: Option<Event>) -> Option<Sound> {
        match pending {
            Some(event) => match action_of(event) {
                Some(Action::Confirm) => self.confirm_cue(),
                _ => None,
            },
            None => None,
        }
    }

    /// The session after one turn of the main loop: the clock is read, then
    /// the pending input is taken. The per-tick update changes nothing.
    pub open spec fn frame(self, frame: Frame) -> Session {
        self.advance_time(frame.now).handle(frame.pending, frame.seed)
    }

    /// The session after the main loop ran on `frames`: it takes one frame
    /// per turn and ends at the first turn that finds the exit flag set.
    pub open spec fn run(self, frames: Seq<Frame>) -> Session
        decreases frames.len(),
    {
        if frames.len() == 0 || self.exit {
            self
        } else {
            self.frame(frames.first()).run(frames.drop_first())
        }
    }

    /// What a frame shows of the session.
    pub open spec fn scene(self) -> Scene {
        Scene {
            title: TITLE,
            readout: Readout::of(self.timing.delta_time),
            overlay: Overlay::of(self.state),
        }
    }
}

/// The state of one play-through of game 02.
#[derive(Debug)]
pub struct App {
    exit: bool,
    timing: Timing,
    seed: u32,
    perlin: Perlin,
    game_state: GameState,
}

impl View for App {
    type V = Session;

    closed spec fn view(&self) -> Session {
        Session { exit: self.exit, timing: self.timing, seed: self.seed, state: self.game_state }
    }
}

impl App {
    /// The generator of every session that exists is the one that its seed
    /// makes.
    #[verifier::type_invariant]
    spec fn holds_inv(self) -> bool {
        self.perlin == perlin_of(self.seed)
    }

    /// Starts a session at the clock reading `now`, with a noise generator
    /// made from a seed drawn at random.
    pub fn new(now: u64) -> (app: App)
        ensures
            app@ == Session::fresh(now, app@.seed),
    {
        App::with_seed(now, fresh_seed())
    }

    /// Starts a session at the clock reading `now`, with a noise generator
    /// made from `seed`.
    pub fn with_seed(now: u64, seed: u32) -> (app: App)
        ensures
            app@ == Session::fresh(now, seed),
    {
        App {
            exit: false,
            timing: Timing::new(now),
            seed,
            perlin: Perlin::new(seed),
            game_state: GameState::Playing,
        }
    }

    /// Whether the player asked to leave.
    pub fn should_exit(&self) -> (exit: bool)
        ensures
            exit == self@.exit,
    {
        self.exit
    }

    /// Where the play-through stands.
    pub fn game_state(&self) -> (state: GameState)
        ensures
            state == self@.state,
    {
        self.game_state
    }

    /// The session's clock readings.
    pub fn timing(&self) -> (timing: Timing)
        ensures
            timing == self@.timing,
    {
        self.timing
    }

    /// The seed that the session's noise generator was made from.
    pub fn seed(&self) -> (seed: u32)
        ensures
            seed == self@.seed,
    {
        self.seed
    }

    /// The session's noise generator: the one that the session's seed makes.
    /// It stays the same until the session is restarted.
    pub fn perlin(&self) -> (generator: &Perlin)
        ensures
            *generator == self@.generator(),
    {
        proof {
            use_type_invariant(self);
        }
        &self.perlin
    }

    /// Records the clock reading of a new tick.
    pub fn advance_time(&mut self, now: u64)
        ensures
            final(self)@ == old(self)@.advance_time(now),
    {
        proof {
            use_type_invariant(&*self);
        }
        let mut timing = self.timing;
        timing.advance(now);
        self.timing = timing;
    }

    /// The per-tick update: game 02 has nothing to update yet.
    pub fn tick(&mut self)
        ensures
            final(self)@ == old(self)@,
    {
    }

    /// Sets the exit flag.
    pub fn exit(&mut self)
        ensures
            final(self)@ == old(self)@.quit(),
            final(self)@.exit,
    {
        proof {
            use_type_invariant(&*self);
        }
        self.exit = true;
    }

    /// Puts the session back to its start: a fresh session at the latest
    /// tick, with a noise generator made from a seed drawn at random.
    pub fn reset(&mut self)
        ensures
            final(self)@ == Session::fresh(old(self)@.timing.now, final(self)@.seed),
    {
        self.reset_with(fresh_seed());
    }

    /// Puts the session back to its start: a fresh session at the latest
    /// tick, with a noise generator made from `seed`.
    pub fn reset_with(&mut self, seed: u32)
        ensures
            final(self)@ == Session::fresh(old(self)@.timing.now, seed),
    {
        *self = App::with_seed(self.timing.now, seed);
    }

    /// The confirm key: asks for the confirmation cue while the game is
    /// played, and changes nothing.
    pub fn pressed_space(&mut self) -> (sound: Option<Sound>)
        ensures
            final(self)@ == old(self)@,
            sound == old(self)@.confirm_cue(),
    {
        match self.game_state {
            GameState::Playing => Some(Sound::Confirm),
            _ => None,
        }
    }

    /// The key that accepts a restart: see `Session::accept_restart`.
    pub fn pressed_y(&mut self)
        ensures
            final(self)@ == old(self)@.accept_restart(final(self)@.seed),
    {
        match self.game_state {
            GameState::Won => {
                self.reset();
            },
            GameState::Lost => {
                self.reset();
            },
            _ => {},
        }
    }

    /// The key that declines a restart: see `Session::decline_restart`.
    pub fn pressed_n(&mut self)
        ensures
            final(self)@ == old(self)@.decline_restart(),
    {
        match self.game_state {
            GameState::Won => {
                self.exit();
            },
            GameState::Lost => {
                self.exit();
            },
            _ => {},
        }
    }

    /// Takes the input that was pending at this tick, `None` if there was
    /// none, and returns the sound cue to play. Only the press of a bound key
    /// does anything; a restart draws its seed at random.
    pub fn handle_events(&mut self, pending: Option<Event>) -> (sound: Option<Sound>)
        ensures
            final(self)@ == old(self)@.handle(pending, final(self)@.seed),
            sound == old(self)@.cue(pending),
    {
        match pending {
            Some(event) => match Action::from_event(&event) {
                Some(Action::Quit) => {
                    self.exit();
                    None
                },
                Some(Action::Confirm) => self.pressed_space(),
                Some(Action::AcceptRestart) => {
                    self.pressed_y();
                    None
                },
                Some(Action::DeclineRestart) => {
                    self.pressed_n();
                    None
                },
                None => None,
            },
            None => None,
        }
    }

    /// Describes the frame that shows the session. The session is only read:
    /// the same session gives the same scene.
    pub fn render(&self) -> (scene: Scene)
        ensures
            scene == self@.scene(),
    {
        Scene {
            title: TITLE,
            readout: Readout::new(self.timing.delta_time),
            overlay: Overlay::for_state(self.game_state),
        }
    }
}

/// Nothing in game 02 ends the game: a session that is played is still
/// played after the main loop ran, whatever it ran on, and the only thing
/// that input can change is the exit flag.
pub proof fn lemma_always_playing(s: Session, frames: Seq<Frame>)
    requires
        s.state == GameState::Playing,
    ensures
        s.run(frames).state == GameState::Playing,
        s.run(frames).seed == s.seed,
        s.run(frames).timing.started_at == s.timing.started_at,
    decreases frames.len(),
{
    if frames.len() > 0 && !s.exit {
        lemma_always_playing(s.frame(frames.first()), frames.drop_first());
    }
}

/// The confirm key changes nothing in any state, and once the game is over
/// it makes no sound either.
pub proof fn lemma_confirm_changes_nothing(s: Session, seed: u32)
    ensures
        s.handle(Some(press_of(CONFIRM_KEY)), seed) == s,
        s.state.is_over() ==> s.confirm_cue() is None,
        s.state.is_over() ==> s.cue(Some(press_of(CONFIRM_KEY))) is None,
        !s.state.is_over() ==> s.cue(Some(press_of(CONFIRM_KEY))) == Some(Sound::Confirm),
{
}

/// Accepting a restart once the game is over gives a session that differs
/// from a newly made one in nothing but its clock readings and its seed.
/// While the game is played the key does nothing.
pub proof fn lemma_restart_is_fresh(s: Session, seed: u32)
    ensures
        !s.state.is_over() ==> s.accept_restart(seed) == s,
        s.state.is_over() ==> {
            let restarted = s.accept_restart(seed);
            &&& restarted == Session::fresh(s.timing.now, seed)
            &&& restarted == s.handle(Some(press_of(ACCEPT_KEY)), seed)
            &&& restarted.state == GameState::Playing
            &&& !restarted.exit
        },
{
}

/// Quitting sets the exit flag in every state; declining a restart sets it
/// once the game is over and does nothing before; and the main loop takes no
/// further turn once the flag is set.
pub proof fn lemma_leaving(s: Session, frames: Seq<Frame>, seed: u32)
    ensures
        s.quit().exit,
        s.handle(Some(press_of(QUIT_KEY)), seed).exit,
        s.state.is_over() ==> s.decline_restart().exit,
        s.state.is_over() ==> s.handle(Some(press_of(DECLINE_KEY)), seed).exit,
        !s.state.is_over() ==> s.decline_restart() == s,
        s.exit ==> s.run(frames) == s,
{
}

/// A scene depends on nothing but the state and the length of the latest
/// tick: two sessions that agree in these show the same.
pub proof fn lemma_scene_of_shown_values(a: Session, b: Session)
    requires
        a.state == b.state,
        a.timing.delta_time == b.timing.delta_time,
    ensures
        a.scene() == b.scene(),
{
}

} // verus!
