//! Verified colour-palette logic for a small scene of spinning tori: a
//! palette that is stepped through by keyboard commands and, while its
//! automatic mode is on, by a repeating one-second timer.

mod keys;
mod laws;
mod palette;
mod timer;

pub use keys::JustPressed;
pub use laws::{
    lemma_automatic_frame, lemma_cycle_visits_each_colour_once, lemma_frames_add_up, lemma_keys, lemma_manual_frames_change_nothing, lemma_next_cycles,
    lemma_next_n, lemma_operations_keep_palette, lemma_select_shows, lemma_tick_keeps_time, lemma_toggle_twice,
};
pub use palette::{ColorPalette, PaletteModel, TIMER_PERIOD_NANOS};
pub use timer::repeating_tick;
