use laba::{ColorPalette, JustPressed, TIMER_PERIOD_NANOS};

type Rgb = (u8, u8, u8);

const BLACK: Rgb = (0, 0, 0);
const WHITE: Rgb = (255, 255, 255);
const BLUE: Rgb = (0, 0, 255);
const RED: Rgb = (255, 0, 0);
const VIOLET: Rgb = (128, 0, 255);

fn scene_palette() -> ColorPalette<Rgb> {
    ColorPalette::new(vec![BLACK, WHITE, BLUE, RED, VIOLET])
}

fn no_keys() -> JustPressed {
    JustPressed {
        space: false,
        digit1: false,
        digit2: false,
        digit3: false,
        digit4: false,
        digit5: false,
        key_a: false,
    }
}

#[test]
fn new_palette_shows_first_colour_in_manual_mode() {
    let palette = scene_palette();
    assert_eq!(palette.current_color(), BLACK);
    assert!(!palette.is_automatic());
}

#[test]
fn next_color_steps_in_order_and_wraps() {
    let mut palette = scene_palette();
    let mut seen = Vec::new();
    for _ in 0..6 {
        palette.next_color();
        seen.push(palette.current_color());
    }
    assert_eq!(seen, vec![WHITE, BLUE, RED, VIOLET, BLACK, WHITE]);
}

#[test]
fn stepping_once_per_colour_returns_to_start() {
    let mut palette = scene_palette();
    palette.set_color(3);
    for _ in 0..5 {
        palette.next_color();
    }
    assert_eq!(palette.current_color(), RED);
}

#[test]
fn single_colour_palette_stays_on_it() {
    let mut palette = ColorPalette::new(vec![BLUE]);
    palette.next_color();
    palette.next_color();
    assert_eq!(palette.current_color(), BLUE);
}

#[test]
fn set_color_shows_chosen_colour() {
    let mut palette = scene_palette();
    palette.set_color(4);
    assert_eq!(palette.current_color(), VIOLET);
    palette.set_color(0);
    assert_eq!(palette.current_color(), BLACK);
}

#[test]
fn toggle_twice_restores_mode() {
    let mut palette = scene_palette();
    palette.toggle_automatic();
    assert!(palette.is_automatic());
    palette.toggle_automatic();
    assert!(!palette.is_automatic());
}

#[test]
fn space_steps_to_next_colour() {
    let mut palette = scene_palette();
    palette.apply_keys(&JustPressed { space: true, ..no_keys() });
    assert_eq!(palette.current_color(), WHITE);
    assert!(!palette.is_automatic());
}

#[test]
fn each_digit_selects_its_colour() {
    let expected = [BLACK, WHITE, BLUE, RED, VIOLET];
    for digit in 1..=5 {
        let mut palette = scene_palette();
        palette.next_color();
        let keys = JustPressed {
            digit1: digit == 1,
            digit2: digit == 2,
            digit3: digit == 3,
            digit4: digit == 4,
            digit5: digit == 5,
            ..no_keys()
        };
        palette.apply_keys(&keys);
        assert_eq!(palette.current_color(), expected[digit - 1]);
    }
}

#[test]
fn digit_wins_over_space_in_same_frame() {
    let mut palette = scene_palette();
    palette.apply_keys(&JustPressed { space: true, digit3: true, ..no_keys() });
    assert_eq!(palette.current_color(), BLUE);
}

#[test]
fn highest_digit_wins() {
    let mut palette = scene_palette();
    palette.apply_keys(&JustPressed { digit2: true, digit4: true, ..no_keys() });
    assert_eq!(palette.current_color(), RED);
}

#[test]
fn key_a_switches_automatic_mode() {
    let mut palette = scene_palette();
    palette.apply_keys(&JustPressed { key_a: true, ..no_keys() });
    assert!(palette.is_automatic());
    assert_eq!(palette.current_color(), BLACK);
    palette.apply_keys(&JustPressed { key_a: true, ..no_keys() });
    assert!(!palette.is_automatic());
}

#[test]
fn no_keys_change_nothing() {
    let mut palette = scene_palette();
    palette.set_color(2);
    palette.apply_keys(&no_keys());
    assert_eq!(palette.current_color(), BLUE);
    assert!(!palette.is_automatic());
}

#[test]
fn timer_period_is_one_second() {
    assert_eq!(TIMER_PERIOD_NANOS, 1_000_000_000);
}

#[test]
fn manual_mode_ignores_time() {
    let mut palette = scene_palette();
    palette.automatic_tick(5 * TIMER_PERIOD_NANOS);
    assert_eq!(palette.current_color(), BLACK);
}

#[test]
fn manual_mode_does_not_advance_timer() {
    let mut palette = scene_palette();
    palette.automatic_tick(900_000_000);
    palette.toggle_automatic();
    palette.automatic_tick(200_000_000);
    assert_eq!(palette.current_color(), BLACK);
}

#[test]
fn automatic_mode_changes_colour_each_second() {
    let mut palette = scene_palette();
    palette.toggle_automatic();
    palette.automatic_tick(600_000_000);
    assert_eq!(palette.current_color(), BLACK);
    palette.automatic_tick(600_000_000);
    assert_eq!(palette.current_color(), WHITE);
    palette.automatic_tick(300_000_000);
    assert_eq!(palette.current_color(), WHITE);
    palette.automatic_tick(499_999_999);
    assert_eq!(palette.current_color(), WHITE);
    palette.automatic_tick(1);
    assert_eq!(palette.current_color(), BLUE);
}

#[test]
fn exact_period_finishes_timer() {
    let mut palette = scene_palette();
    palette.toggle_automatic();
    palette.automatic_tick(TIMER_PERIOD_NANOS);
    assert_eq!(palette.current_color(), WHITE);
    palette.automatic_tick(TIMER_PERIOD_NANOS - 1);
    assert_eq!(palette.current_color(), WHITE);
    palette.automatic_tick(1);
    assert_eq!(palette.current_color(), BLUE);
}

#[test]
fn long_frame_steps_only_once() {
    let mut palette = scene_palette();
    palette.toggle_automatic();
    palette.automatic_tick(3 * TIMER_PERIOD_NANOS + 500_000_000);
    assert_eq!(palette.current_color(), WHITE);
    palette.automatic_tick(400_000_000);
    assert_eq!(palette.current_color(), WHITE);
    palette.automatic_tick(100_000_000);
    assert_eq!(palette.current_color(), BLUE);
}

#[test]
fn many_short_frames_add_up() {
    let mut palette = scene_palette();
    palette.toggle_automatic();
    for _ in 0..99 {
        palette.automatic_tick(10_000_000);
    }
    assert_eq!(palette.current_color(), BLACK);
    palette.automatic_tick(10_000_000);
    assert_eq!(palette.current_color(), WHITE);
}

#[test]
fn automatic_mode_wraps_round_palette() {
    let mut palette = scene_palette();
    palette.set_color(4);
    palette.toggle_automatic();
    palette.automatic_tick(TIMER_PERIOD_NANOS);
    assert_eq!(palette.current_color(), BLACK);
}

#[test]
fn frame_of_exactly_two_pow_32_periods_is_not_counted() {
    let mut palette = scene_palette();
    palette.toggle_automatic();
    palette.automatic_tick((1u64 << 32) * TIMER_PERIOD_NANOS);
    assert_eq!(palette.current_color(), BLACK);
    palette.automatic_tick(TIMER_PERIOD_NANOS - 1);
    assert_eq!(palette.current_color(), BLACK);
    palette.automatic_tick(1);
    assert_eq!(palette.current_color(), WHITE);
}

#[test]
fn frame_of_two_pow_32_and_one_periods_steps_once() {
    let mut palette = scene_palette();
    palette.toggle_automatic();
    palette.automatic_tick(((1u64 << 32) + 1) * TIMER_PERIOD_NANOS);
    assert_eq!(palette.current_color(), WHITE);
}

#[test]
fn color_count_is_number_of_colours() {
    assert_eq!(scene_palette().color_count(), 5);
    assert_eq!(ColorPalette::new(vec![RED, BLUE]).color_count(), 2);
}
