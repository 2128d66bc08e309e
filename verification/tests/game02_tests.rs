use minigames::game02::{App, Scene, TITLE};
use minigames::input::{Event, KeyCode, KeyEvent, KeyEventKind};
use minigames::scene::Readout;
use minigames::shared::{GameState, Sound};
use minigames::timing::Timing;
use noise::{NoiseFn, Perlin, Seedable};

fn press(c: char) -> Option<Event> {
    Some(Event::Key(KeyEvent { code: KeyCode::Char(c), kind: KeyEventKind::Press }))
}

#[test]
fn game02_with_seed_starts_fresh() {
    let app = App::with_seed(55, 6);
    assert!(!app.should_exit());
    assert_eq!(app.game_state(), GameState::Playing);
    assert_eq!(app.seed(), 6);
    assert_eq!(app.perlin().seed(), 6);
    assert_eq!(app.timing(), Timing { now: 55, started_at: 55, delta_time: 1_000_000, elapsed: 0 });
}

#[test]
fn game02_new_starts_fresh_with_some_seed() {
    let app = App::new(8);
    assert!(!app.should_exit());
    assert_eq!(app.game_state(), GameState::Playing);
    assert_eq!(app.timing(), Timing::new(8));
    assert_eq!(app.perlin().seed(), app.seed());
}

#[test]
fn game02_generator_is_the_one_its_seed_makes() {
    let positions = [0.0, 0.3, 0.9, 2.5, 40.75];
    let mut app = App::with_seed(0, 17);
    app.advance_time(5_000_000);
    app.tick();
    app.handle_events(press(' '));
    app.handle_events(press('y'));
    let made = Perlin::new(17);
    for position in positions {
        assert_eq!(app.perlin().get([position]), made.get([position]));
    }
    app.reset_with(18);
    let remade = Perlin::new(18);
    for position in positions {
        assert_eq!(app.perlin().get([position]), remade.get([position]));
    }
}

#[test]
fn game02_advance_time_moves_the_clock_only() {
    let mut app = App::with_seed(100, 1);
    app.advance_time(350);
    assert_eq!(app.timing(), Timing { now: 350, started_at: 100, delta_time: 250, elapsed: 250 });
    assert_eq!(app.game_state(), GameState::Playing);
    assert!(!app.should_exit());
}

#[test]
fn game02_tick_changes_nothing() {
    let mut app = App::with_seed(100, 1);
    app.advance_time(350);
    let before = (app.should_exit(), app.game_state(), app.timing(), app.seed(), app.render());
    app.tick();
    let after = (app.should_exit(), app.game_state(), app.timing(), app.seed(), app.render());
    assert_eq!(before, after);
}

#[test]
fn game02_confirm_makes_a_sound_and_changes_nothing() {
    let mut app = App::with_seed(0, 1);
    for _ in 0..20 {
        assert_eq!(app.pressed_space(), Some(Sound::Confirm));
        assert_eq!(app.handle_events(press(' ')), Some(Sound::Confirm));
        assert_eq!(app.game_state(), GameState::Playing);
        assert!(!app.should_exit());
        assert_eq!(app.timing(), Timing::new(0));
        assert_eq!(app.seed(), 1);
    }
}

#[test]
fn game02_quit_leaves() {
    let mut app = App::with_seed(0, 1);
    assert_eq!(app.handle_events(press('q')), None);
    assert!(app.should_exit());
    assert_eq!(app.game_state(), GameState::Playing);

    let mut other = App::with_seed(0, 1);
    other.exit();
    assert!(other.should_exit());
}

#[test]
fn game02_restart_keys_do_nothing_while_playing() {
    let mut app = App::with_seed(4, 2);
    app.advance_time(10);
    assert_eq!(app.handle_events(press('y')), None);
    assert_eq!(app.handle_events(press('n')), None);
    app.pressed_y();
    app.pressed_n();
    assert!(!app.should_exit());
    assert_eq!(app.seed(), 2);
    assert_eq!(app.game_state(), GameState::Playing);
    assert_eq!(app.timing(), Timing { now: 10, started_at: 4, delta_time: 6, elapsed: 6 });
}

#[test]
fn game02_input_that_is_no_bound_press_is_ignored() {
    let mut app = App::with_seed(0, 1);
    let ignored = [
        None,
        Some(Event::Other),
        press('x'),
        Some(Event::Key(KeyEvent { code: KeyCode::Other, kind: KeyEventKind::Press })),
        Some(Event::Key(KeyEvent { code: KeyCode::Char('q'), kind: KeyEventKind::Release })),
        Some(Event::Key(KeyEvent { code: KeyCode::Char(' '), kind: KeyEventKind::Repeat })),
    ];
    for pending in ignored {
        assert_eq!(app.handle_events(pending), None);
        assert!(!app.should_exit());
        assert_eq!(app.game_state(), GameState::Playing);
    }
}

#[test]
fn game02_reset_with_takes_the_latest_tick_and_the_seed() {
    let mut app = App::with_seed(1, 1);
    app.advance_time(600);
    app.exit();
    app.reset_with(31);
    assert!(!app.should_exit());
    assert_eq!(app.seed(), 31);
    assert_eq!(app.perlin().seed(), 31);
    assert_eq!(app.game_state(), GameState::Playing);
    assert_eq!(app.timing(), Timing::new(600));
}

#[test]
fn game02_reset_draws_a_seed_for_its_generator() {
    let mut app = App::with_seed(1, 1);
    app.advance_time(20);
    app.exit();
    app.reset();
    assert!(!app.should_exit());
    assert_eq!(app.perlin().seed(), app.seed());
    assert_eq!(app.timing(), Timing::new(20));
}

#[test]
fn game02_render_shows_title_and_readout() {
    assert_eq!(TITLE, "02");
    let mut app = App::with_seed(0, 1);
    assert_eq!(
        app.render(),
        Scene { title: "02", readout: Readout { tick_ms: 1, fps_centi: Some(100_000) }, overlay: None }
    );
    app.advance_time(20_000_000);
    assert_eq!(
        app.render(),
        Scene { title: "02", readout: Readout { tick_ms: 20, fps_centi: Some(5_000) }, overlay: None }
    );
    app.advance_time(20_000_001);
    assert_eq!(app.render().readout, Readout { tick_ms: 0, fps_centi: None });
}

#[test]
fn game02_rendering_twice_gives_the_same_scene() {
    let mut app = App::with_seed(0, 1);
    app.advance_time(33_000_000);
    app.handle_events(press(' '));
    assert_eq!(app.render(), app.render());
}
