//! The three-color indicator.

use vstd::prelude::*;

verus! {

/// A three-color indicator: three exclusively owned digital output
/// lines, one per color.  A field is `true` when its line drives high,
/// which lights the color; the board binding mirrors each field onto
/// its physical pin.
pub struct Light {
    pub red: bool,
    pub yellow: bool,
    pub green: bool,
}

impl Light {
    /// All three lines read low: nothing is lit.
    pub open spec fn all_off(self) -> bool {
        !self.red && !self.yellow && !self.green
    }

    /// Exactly the red line reads high.
    pub open spec fn only_red(self) -> bool {
        self.red && !self.yellow && !self.green
    }

    /// Exactly the yellow line reads high.
    pub open spec fn only_yellow(self) -> bool {
        !self.red && self.yellow && !self.green
    }

    /// Exactly the green line reads high.
    pub open spec fn only_green(self) -> bool {
        !self.red && !self.yellow && self.green
    }

    /// At most one of the three lines is high: the invariant every
    /// operation reestablishes by clearing all lines before setting one.
    pub open spec fn mutually_exclusive(self) -> bool {
        self.all_off() || self.only_red() || self.only_yellow() || self.only_green()
    }

    /// Configures the three lines as outputs initialized low.
    pub fn new() -> (light: Light)
        ensures
            light.all_off(),
    {
        Light { red: false, yellow: false, green: false }
    }

    /// Lights red alone: clears all three lines, then drives red high.
    /// Holds from any prior state.
    pub fn red(&mut self)
        ensures
            final(self).only_red(),
    {
        self.set_off();
        self.red = true;
    }

    /// Lights yellow alone: clears all three lines, then drives yellow
    /// high.  Holds from any prior state.
    pub fn yellow(&mut self)
        ensures
            final(self).only_yellow(),
    {
        self.set_off();
        self.yellow = true;
    }

    /// Lights green alone: clears all three lines, then drives green
    /// high.  Holds from any prior state.
    pub fn green(&mut self)
        ensures
            final(self).only_green(),
    {
        self.set_off();
        self.green = true;
    }

    /// Drives all three lines low, whatever they read before.
    /// Idempotent.
    pub fn set_off(&mut self)
        ensures
            final(self).all_off(),
    {
        self.red = false;
        self.yellow = false;
        self.green = false;
    }
}

} // verus!
