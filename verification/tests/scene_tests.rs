use minigames::scene::{
    bar_height, longest_line, Overlay, Readout, Tone, LOST_TEXT, RESTART_CHOICES,
    RESTART_QUESTION, WON_TEXT,
};
use minigames::shared::GameState;

#[test]
fn readout_of_a_sixteen_millisecond_tick() {
    let readout = Readout::new(16_000_000);
    assert_eq!(readout, Readout { tick_ms: 16, fps_centi: Some(6_250) });
}

#[test]
fn readout_counts_whole_milliseconds() {
    assert_eq!(Readout::new(1_000_000).tick_ms, 1);
    assert_eq!(Readout::new(1_999_999).tick_ms, 1);
    assert_eq!(Readout::new(2_000_000).tick_ms, 2);
    assert_eq!(Readout::new(999_999).tick_ms, 0);
}

#[test]
fn readout_of_a_tick_under_a_millisecond_has_no_frame_rate() {
    assert_eq!(Readout::new(0), Readout { tick_ms: 0, fps_centi: None });
    assert_eq!(Readout::new(999_999), Readout { tick_ms: 0, fps_centi: None });
}

#[test]
fn readout_frame_rate_is_a_thousand_over_the_milliseconds() {
    assert_eq!(Readout::new(1_000_000).fps_centi, Some(100_000));
    assert_eq!(Readout::new(2_000_000).fps_centi, Some(50_000));
    assert_eq!(Readout::new(3_000_000).fps_centi, Some(33_333));
    assert_eq!(Readout::new(6_000_000).fps_centi, Some(16_667));
    assert_eq!(Readout::new(7_000_000).fps_centi, Some(14_286));
    assert_eq!(Readout::new(1_000_000_000).fps_centi, Some(100));
    assert_eq!(Readout::new(64_000_000).fps_centi, Some(1_563));
    assert_eq!(Readout::new(200_000_000_000).fps_centi, Some(1));
    assert_eq!(Readout::new(200_001_000_000).fps_centi, Some(0));
    assert_eq!(Readout::new(u64::MAX).fps_centi, Some(0));
}

#[test]
fn overlay_announces_how_the_game_ended() {
    assert_eq!(Overlay::for_state(GameState::Playing), None);
    assert_eq!(
        Overlay::for_state(GameState::Won),
        Some(Overlay {
            message: "Z achieved - you won!",
            tone: Tone::Success,
            question: "Play again?",
            choices: "(Y)es (N)o",
        })
    );
    assert_eq!(
        Overlay::for_state(GameState::Lost),
        Some(Overlay {
            message: "B ran out - game over!",
            tone: Tone::Failure,
            question: "Play again?",
            choices: "(Y)es (N)o",
        })
    );
    assert_eq!(WON_TEXT, "Z achieved - you won!");
    assert_eq!(LOST_TEXT, "B ran out - game over!");
    assert_eq!(RESTART_QUESTION, "Play again?");
    assert_eq!(RESTART_CHOICES, "(Y)es (N)o");
}

#[test]
fn bar_height_scales_a_fraction_to_chart_units() {
    assert_eq!(bar_height(0, 100), 0);
    assert_eq!(bar_height(1_000_000, 100), 100);
    assert_eq!(bar_height(500_000, 100), 50);
    assert_eq!(bar_height(250_000, 100), 25);
    assert_eq!(bar_height(1_000_000, 7), 7);
    assert_eq!(bar_height(123_456, 0), 0);
}

#[test]
fn bar_height_rounds_to_the_nearest_unit() {
    assert_eq!(bar_height(754_999, 100), 75);
    assert_eq!(bar_height(755_000, 100), 76);
    assert_eq!(bar_height(4_999, 100), 0);
    assert_eq!(bar_height(5_000, 100), 1);
    assert_eq!(bar_height(995_000, 100), 100);
    assert_eq!(bar_height(994_999, 100), 99);
    assert_eq!(bar_height(1_000_000, u32::MAX as u64), u32::MAX as u64);
}

#[test]
fn longest_line_counts_bytes() {
    assert_eq!(longest_line(&[]), 0);
    assert_eq!(longest_line(&[""]), 0);
    assert_eq!(longest_line(&["ab", "abcd", "abc"]), 4);
    assert_eq!(longest_line(&["abcd", "ab"]), 4);
    assert_eq!(longest_line(&["é"]), 2);
}
