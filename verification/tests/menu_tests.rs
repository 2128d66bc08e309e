use minigames::menu::{same_text, Game, USAGE};

#[test]
fn each_game_goes_by_its_title() {
    assert_eq!(Game::from_arg("01"), Some(Game::Game01));
    assert_eq!(Game::from_arg("02"), Some(Game::Game02));
    assert_eq!(Game::Game01.title(), "01");
    assert_eq!(Game::Game02.title(), "02");
    assert_eq!(Game::from_arg(Game::Game01.title()), Some(Game::Game01));
    assert_eq!(Game::from_arg(Game::Game02.title()), Some(Game::Game02));
}

#[test]
fn other_names_pick_no_game() {
    for name in ["", "0", "1", "2", "03", "10", "001", "01 ", " 01", "o1", "game01", "０１"] {
        assert_eq!(Game::from_arg(name), None);
    }
}

#[test]
fn usage_names_both_games() {
    assert_eq!(USAGE, "Available games (pass in as first arg): 01, 02");
}

#[test]
fn same_text_compares_character_by_character() {
    assert!(same_text("", ""));
    assert!(same_text("abc", "abc"));
    assert!(same_text("héllo", "héllo"));
    assert!(!same_text("abc", "abd"));
    assert!(!same_text("abc", "ab"));
    assert!(!same_text("", "a"));
    assert!(!same_text("é", "e"));
}
