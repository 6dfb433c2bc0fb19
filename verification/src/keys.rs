use vstd::prelude::*;

use crate::palette::{ColorPalette, PaletteModel};

verus! {

/// The palette's keys that were pressed down during one frame.
#[derive(Clone, Copy, Debug, PartialEq, Eq)]
pub struct JustPressed {
    /// Space: step to the following colour.
    pub space: bool,
    /// Digit 1: show the first colour.
    pub digit1: bool,
    /// Digit 2: show the second colour.
    pub digit2: bool,
    /// Digit 3: show the third colour.
    pub digit3: bool,
    /// Digit 4: show the fourth colour.
    pub digit4: bool,
    /// Digit 5: show the fifth colour.
    pub digit5: bool,
    /// A: switch the automatic mode on or off.
    pub key_a: bool,
}

impl JustPressed {
    /// Every digit that was pressed names a colour of a palette of `len` colours.
    pub open spec fn digits_within(self, len: int) -> bool {
        &&& self.digit1 ==> 1 <= len
        &&& self.digit2 ==> 2 <= len
        &&& self.digit3 ==> 3 <= len
        &&& self.digit4 ==> 4 <= len
        &&& self.digit5 ==> 5 <= len
    }
}

impl<C> PaletteModel<C> {
    /// The palette after the keys of one frame, handled in a fixed order:
    /// space, then the digits from 1 to 5 (so the highest digit pressed
    /// wins over space and the lower digits), then A.
    pub open spec fn after_keys(self, keys: JustPressed) -> Self {
        let m = if keys.space { self.next() } else { self };
        let m = if keys.digit1 { m.select(0) } else { m };
        let m = if keys.digit2 { m.select(1) } else { m };
        let m = if keys.digit3 { m.select(2) } else { m };
        let m = if keys.digit4 { m.select(3) } else { m };
        let m = if keys.digit5 { m.select(4) } else { m };
        if keys.key_a { m.toggle() } else { m }
    }
}

impl<C: Copy> ColorPalette<C> {
    /// Handles the palette's keys pressed during one frame.
    pub fn apply_keys(&mut self, keys: &JustPressed)
        requires
            old(self)@.wf(),
            keys.digits_within(old(self)@.colors.len() as int),
        ensures
            final(self)@ == old(self)@.after_keys(*keys),
            final(self)@.wf(),
    {
        if keys.space {
            self.next_color();
        }
        if keys.digit1 {
            self.set_color(0);
        }
        if keys.digit2 {
            self.set_color(1);
        }
        if keys.digit3 {
            self.set_color(2);
        }
        if keys.digit4 {
            self.set_color(3);
        }
        if keys.digit5 {
            self.set_color(4);
        }
        if keys.key_a {
            self.toggle_automatic();
        }
    }
}

} // verus!
