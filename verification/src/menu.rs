//! The choice between the games, by the name given on the command line.

use crate::game01;
use crate::game02;
use vstd::prelude::*;
use vstd::string::StrSliceExecFns;

verus! {

/// What to tell a player who named no game, or none that there is.
pub const USAGE: &'static str = "Available games (pass in as first arg): 01, 02";

/// One of the games.
#[derive(Debug, Clone, Copy, PartialEq, Eq, Structural)]
pub enum Game {
    Game01,
    Game02,
}

/// The game that goes by `name`: each game goes by its title.
pub open spec fn game_named(name: Seq<char>) -> Option<Game> {
    if name == game01::TITLE@ {
        Some(Game::Game01)
    } else if name == game02::TITLE@ {
        Some(Game::Game02)
    } else {
        None
    }
}

/// Whether two texts are the same, character by character.
pub fn same_text(left: &str, right: &str) -> (same: bool)
    ensures
        same == (left@ == right@),
{
    let len = left.unicode_len();
    if len != right.unicode_len() {
        return false;
    }
    let mut i: usize = 0;
    while i < len
        invariant
            i <= len,
            len == left@.len(),
            len == right@.len(),
            left@.take(i as int) == right@.take(i as int),
        decreases len - i,
    {
        if left.get_char(i) != right.get_char(i) {
            assert(left@[i as int] != right@[i as int]);
            return false;
        }
        assert(left@.take(i + 1) == left@.take(i as int).push(left@[i as int]));
        assert(right@.take(i + 1) == right@.take(i as int).push(right@[i as int]));
        i = i + 1;
    }
    assert(left@ == left@.take(len as int));
    assert(right@ == right@.take(len as int));
    true
}

impl Game {
    /// Picks the game that the argument `arg` names, if it names one.
    pub fn from_arg(arg: &str) -> (game: Option<Game>)
        ensures
            game == game_named(arg@),
    {
        if same_text(arg, game01::TITLE) {
            Some(Game::Game01)
        } else if same_text(arg, game02::TITLE) {
            Some(Game::Game02)
        } else {
            None
        }
    }

    /// The title of the game, which is also the name it is chosen by.
    pub fn title(self) -> (title: &'static str)
        ensures
            game_named(title@) == Some(self),
    {
        proof {
            lemma_titles_differ();
        }
        match self {
            Game::Game01 => game01::TITLE,
            Game::Game02 => game02::TITLE,
        }
    }
}

/// The two titles are "01" and "02": two characters each, and not the same.
pub proof fn lemma_titles_differ()
    ensures
        game01::TITLE@ == seq!['0', '1'],
        game02::TITLE@ == seq!['0', '2'],
        game01::TITLE@ != game02::TITLE@,
{
    reveal_strlit("01");
    reveal_strlit("02");
    assert(game01::TITLE@ =~= seq!['0', '1']);
    assert(game02::TITLE@ =~= seq!['0', '2']);
    assert(game01::TITLE@[1] != game02::TITLE@[1]);
}

} // verus!
