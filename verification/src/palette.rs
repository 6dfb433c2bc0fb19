use vstd::prelude::*;

use crate::timer::{repeating_tick, tick_timer};

verus! {

/// Period of the automatic colour change: one second, in nanoseconds.
pub const TIMER_PERIOD_NANOS: u64 = 1_000_000_000;

/// The mathematical state of a palette.
pub struct PaletteModel<C> {
    /// The colours, in the order in which they are stepped through.
    pub colors: Seq<C>,
    /// Position of the current colour in `colors`.
    pub index: int,
    /// Whether the timer changes the colour.
    pub automatic: bool,
    /// Period of the repeating timer, in nanoseconds.
    pub period: int,
    /// Time accumulated on the timer, in nanoseconds.
    pub elapsed: int,
}

impl<C> PaletteModel<C> {
    /// The state of a palette: at least one colour, the index on one of
    /// them, a positive period that fits in `u64`, and less than one
    /// period accumulated.
    pub open spec fn wf(self) -> bool {
        &&& self.colors.len() > 0
        &&& 0 <= self.index < self.colors.len()
        &&& 0 < self.period <= u64::MAX
        &&& 0 <= self.elapsed < self.period
    }

    /// The colour that is shown.
    pub open spec fn current(self) -> C {
        self.colors[self.index]
    }

    /// The palette after stepping to the following colour, wrapping round
    /// after the last one.
    pub open spec fn next(self) -> Self {
        PaletteModel { index: (self.index + 1) % (self.colors.len() as int), ..self }
    }

    /// The palette after `n` steps.
    pub open spec fn next_n(self, n: nat) -> Self
        decreases n,
    {
        if n == 0 {
            self
        } else {
            self.next_n((n - 1) as nat).next()
        }
    }

    /// Some number of steps below the number of colours reaches index `k`.
    pub open spec fn reached_within_cycle(self, k: int) -> bool {
        exists|i: nat| i < self.colors.len() && #[trigger] self.next_n(i).index == k
    }

    /// The palette with colour `index` chosen.
    pub open spec fn select(self, index: int) -> Self {
        PaletteModel { index, ..self }
    }

    /// The palette with its automatic mode switched.
    pub open spec fn toggle(self) -> Self {
        PaletteModel { automatic: !self.automatic, ..self }
    }

    /// The palette after a frame of `delta` nanoseconds: while the automatic
    /// mode is off nothing changes, the timer included; while it is on the
    /// timer advances and the colour steps once if the timer finished.
    pub open spec fn advance(self, delta: int) -> Self {
        if !self.automatic {
            self
        } else {
            let (elapsed, finished) = repeating_tick(self.period, self.elapsed, delta);
            let ticked = PaletteModel { elapsed, ..self };
            if finished {
                ticked.next()
            } else {
                ticked
            }
        }
    }
}

/// A palette of colours with an automatic mode driven by a repeating timer.
pub struct ColorPalette<C> {
    colors: Vec<C>,
    current_index: usize,
    automatic: bool,
    timer_period_nanos: u64,
    timer_elapsed_nanos: u64,
}

impl<C> View for ColorPalette<C> {
    type V = PaletteModel<C>;

    closed spec fn view(&self) -> PaletteModel<C> {
        PaletteModel {
            colors: self.colors@,
            index: self.current_index as int,
            automatic: self.automatic,
            period: self.timer_period_nanos as int,
            elapsed: self.timer_elapsed_nanos as int,
        }
    }
}

impl<C: Copy> ColorPalette<C> {
    /// A palette over `colors` showing the first one, with the automatic
    /// mode off and a fresh one-second timer.
    pub fn new(colors: Vec<C>) -> (palette: Self)
        requires
            colors.len() > 0,
        ensures
            palette@.wf(),
            palette@ == (PaletteModel {
                colors: colors@,
                index: 0,
                automatic: false,
                period: TIMER_PERIOD_NANOS as int,
                elapsed: 0,
            }),
    {
        ColorPalette {
            colors,
            current_index: 0,
            automatic: false,
            timer_period_nanos: TIMER_PERIOD_NANOS,
            timer_elapsed_nanos: 0,
        }
    }

    /// How many colours the palette holds.
    pub fn color_count(&self) -> (n: usize)
        ensures
            n == self@.colors.len(),
    {
        self.colors.len()
    }

    /// The colour that is shown.
    pub fn current_color(&self) -> (color: C)
        requires
            self@.wf(),
        ensures
            color == self@.current(),
    {
        self.colors[self.current_index]
    }

    /// Steps to the following colour, wrapping round after the last one.
    pub fn next_color(&mut self)
        requires
            old(self)@.wf(),
        ensures
            final(self)@ == old(self)@.next(),
            final(self)@.wf(),
    {
        let len = self.colors.len();
        self.current_index = (self.current_index + 1) % len;
    }

    /// Shows colour `index`.
    pub fn set_color(&mut self, index: usize)
        requires
            old(self)@.wf(),
            index < old(self)@.colors.len(),
        ensures
            final(self)@ == old(self)@.select(index as int),
            final(self)@.wf(),
    {
        self.current_index = index;
    }
}

impl<C: Copy> ColorPalette<C> {
    /// Whether the automatic mode is on.
    pub fn is_automatic(&self) -> (on: bool)
        ensures
            on == self@.automatic,
    {
        self.automatic
    }

    /// Switches the automatic mode on or off.
    pub fn toggle_automatic(&mut self)
        requires
            old(self)@.wf(),
        ensures
            final(self)@ == old(self)@.toggle(),
            final(self)@.wf(),
    {
        self.automatic = !self.automatic;
    }

    /// One frame of `delta_nanos` nanoseconds for the automatic mode: while
    /// it is on, the timer is ticked and the colour steps once if the timer
    /// finished during the tick; while it is off, the timer is left alone.
    pub fn automatic_tick(&mut self, delta_nanos: u64)
        requires
            old(self)@.wf(),
        ensures
            final(self)@ == old(self)@.advance(delta_nanos as int),
            final(self)@.wf(),
    {
        if self.automatic {
            let outcome = tick_timer(self.timer_period_nanos, self.timer_elapsed_nanos, delta_nanos);
            assert(outcome.elapsed_nanos < self.timer_period_nanos) by {
                let total = self.timer_elapsed_nanos + delta_nanos;
                if total >= self.timer_period_nanos {
                    assert(total % (self.timer_period_nanos as int) < self.timer_period_nanos);
                }
            }
            self.timer_elapsed_nanos = outcome.elapsed_nanos as u64;
            if outcome.just_finished {
                self.next_color();
            }
        }
    }
}

} // verus!
