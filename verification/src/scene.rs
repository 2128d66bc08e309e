//! The parts that a frame's description is made of.
//!
//! A scene says what a frame shows, not how it is drawn: texts, numbers and
//! tones. The caller turns it into widgets and colours.

use crate::shared::{div_round, GameState, ONE};
use crate::timing::NANOS_PER_MILLI;
use vstd::prelude::*;
use vstd::utf8::{is_ascii_chars, is_ascii_chars_encode_utf8};

verus! {

/// The text that announces a win.
pub const WON_TEXT: &'static str = "Z achieved - you won!";

/// The text that announces a loss.
pub const LOST_TEXT: &'static str = "B ran out - game over!";

/// The question under the announcement.
pub const RESTART_QUESTION: &'static str = "Play again?";

/// The keys that answer the question.
pub const RESTART_CHOICES: &'static str = "(Y)es (N)o";

/// Milliseconds in a second.
pub const MILLIS_PER_SECOND: u64 = 1000;

/// How a part of the frame is set off from the rest.
#[derive(Debug, Clone, Copy, PartialEq, Eq, Structural)]
pub enum Tone {
    /// Nothing special.
    Plain,
    /// Something is about to run out.
    Warning,
    /// The game was won.
    Success,
    /// The game was lost.
    Failure,
}

/// One bar of a bar chart.
#[derive(Debug, Clone, Copy, PartialEq, Eq)]
pub struct Bar {
    pub label: &'static str,
    /// Height in chart units.
    pub value: u64,
    pub tone: Tone,
}

/// The debug readout: how long the latest tick took and the frame rate that
/// this amounts to.
#[derive(Debug, Clone, Copy, PartialEq, Eq, Structural)]
pub struct Readout {
    /// Length of the latest tick in whole milliseconds.
    pub tick_ms: u64,
    /// Frames per second in hundredths, `1000 / tick_ms` rounded to the
    /// nearest hundredth; `None` where the tick took less than a millisecond
    /// and the rate has no finite value.
    pub fps_centi: Option<u64>,
}

/// The panel that lies over the frame once the game is over.
#[derive(Debug, Clone, Copy, PartialEq, Eq)]
pub struct Overlay {
    pub message: &'static str,
    pub tone: Tone,
    pub question: &'static str,
    pub choices: &'static str,
}

/// Height of a bar for the fraction `val` in a chart whose full height is
/// `bar_max` units, rounded to the nearest unit.
pub open spec fn bar_units(val: nat, bar_max: nat) -> nat {
    div_round(val * bar_max, ONE as nat)
}

impl Readout {
    /// The readout for a tick that took `delta_time` nanoseconds.
    pub open spec fn of(delta_time: u64) -> Readout {
        let tick_ms = delta_time / NANOS_PER_MILLI;
        Readout {
            tick_ms,
            fps_centi: if tick_ms == 0 {
                None
            } else {
                Some(div_round(100 * MILLIS_PER_SECOND as nat, tick_ms as nat) as u64)
            },
        }
    }

    /// Measures a tick of `delta_time` nanoseconds.
    pub fn new(delta_time: u64) -> (readout: Readout)
        ensures
            readout == Readout::of(delta_time),
    {
        let tick_ms: u64 = delta_time / NANOS_PER_MILLI;
        let fps_centi = if tick_ms == 0 {
            None
        } else {
            Some((2 * 100 * MILLIS_PER_SECOND + tick_ms) / (2 * tick_ms))
        };
        Readout { tick_ms, fps_centi }
    }
}

impl Overlay {
    /// The overlay that `state` calls for: none while the game is played.
    pub open spec fn of(state: GameState) -> Option<Overlay> {
        match state {
            GameState::Playing => None,
            GameState::Won => Some(
                Overlay {
                    message: WON_TEXT,
                    tone: Tone::Success,
                    question: RESTART_QUESTION,
                    choices: RESTART_CHOICES,
                },
            ),
            GameState::Lost => Some(
                Overlay {
                    message: LOST_TEXT,
                    tone: Tone::Failure,
                    question: RESTART_QUESTION,
                    choices: RESTART_CHOICES,
                },
            ),
        }
    }

    /// Builds the overlay for `state`.
    pub fn for_state(state: GameState) -> (overlay: Option<Overlay>)
        ensures
            overlay == Overlay::of(state),
    {
        match state {
            GameState::Playing => None,
            GameState::Won => Some(
                Overlay {
                    message: WON_TEXT,
                    tone: Tone::Success,
                    question: RESTART_QUESTION,
                    choices: RESTART_CHOICES,
                },
            ),
            GameState::Lost => Some(
                Overlay {
                    message: LOST_TEXT,
                    tone: Tone::Failure,
                    question: RESTART_QUESTION,
                    choices: RESTART_CHOICES,
                },
            ),
        }
    }
}

/// Computes the height of a bar for the fraction `val`.
pub fn bar_height(val: u64, bar_max: u64) -> (units: u64)
    requires
        val <= ONE,
        bar_max <= u32::MAX,
    ensures
        units == bar_units(val as nat, bar_max as nat),
        units <= bar_max,
{
    proof {
        assert(val * bar_max <= ONE * bar_max) by (nonlinear_arith)
            requires
                val <= ONE,
        ;
    }
    (2 * (val * bar_max) + ONE) / (2 * ONE)
}

/// The byte length of the longest of `lines`, and zero where there is none.
pub open spec fn longest(lines: Seq<&'static str>) -> usize
    decreases lines.len(),
{
    if lines.len() == 0 {
        0
    } else {
        let rest = longest(lines.drop_last());
        let last = lines.last().len();
        if last > rest {
            last
        } else {
            rest
        }
    }
}

/// A text of ASCII characters has as many bytes as characters.
pub proof fn lemma_ascii_length(line: &str)
    requires
        is_ascii_chars(line@),
        line@.len() <= usize::MAX,
    ensures
        line.len() == line@.len(),
{
    is_ascii_chars_encode_utf8(line@);
}

/// Finds the byte length of the longest of `lines`.
pub fn longest_line(lines: &[&'static str]) -> (length: usize)
    ensures
        length == longest(lines@),
{
    let mut length: usize = 0;
    let mut i: usize = 0;
    while i < lines.len()
        invariant
            i <= lines.len(),
            length == longest(lines@.take(i as int)),
        decreases lines.len() - i,
    {
        let len = lines[i].len();
        proof {
            let taken = lines@.take(i + 1);
            assert(taken.drop_last() == lines@.take(i as int));
            assert(taken.last() == lines@[i as int]);
        }
        if len > length {
            length = len;
        }
        i = i + 1;
    }
    proof {
        assert(lines@.take(lines.len() as int) == lines@);
    }
    length
}

} // verus!
