//! The two-direction motor drive.

use vstd::prelude::*;

verus! {

/// A two-direction motor drive: one PWM peripheral with two channels
/// sharing a single period, the forward channel and the backward
/// channel, each bound to its own output pin.  The duty fields hold the
/// duty-cycle count programmed on each channel; `enabled` is the
/// peripheral's enable state, and a disabled peripheral drives neither
/// pin whatever its duty counts hold.  The board binding mirrors these
/// fields onto the peripheral's registers.
pub struct Fan {
    /// Duty-cycle count programmed on the forward channel.
    pub forward_duty: u16,
    /// Duty-cycle count programmed on the backward channel.
    pub backward_duty: u16,
    /// Whether the peripheral is actively driving its outputs.
    pub enabled: bool,
    /// The largest duty-cycle count the peripheral resolves, reported at
    /// construction for diagnostic visibility.  No operation here checks
    /// a requested duty against it.
    pub max_duty: u16,
    /// The peripheral's resolved period, reported at construction for
    /// diagnostic visibility.
    pub period: u32,
}

impl Fan {
    /// At most one channel carries a nonzero duty: the invariant every
    /// drive operation reestablishes by zeroing the opposite channel.
    pub open spec fn single_channel(self) -> bool {
        self.forward_duty == 0 || self.backward_duty == 0
    }

    /// The drive the forward channel actually delivers: its duty count
    /// while the peripheral is enabled, nothing while it is disabled.
    pub open spec fn forward_output(self) -> u16 {
        if self.enabled {
            self.forward_duty
        } else {
            0
        }
    }

    /// The drive the backward channel actually delivers.
    pub open spec fn backward_output(self) -> u16 {
        if self.enabled {
            self.backward_duty
        } else {
            0
        }
    }

    /// Binds the two channels, enabled with both duties at zero, and
    /// records the peripheral's resolved maximum duty and period.
    pub fn new(max_duty: u16, period: u32) -> (fan: Fan)
        ensures
            fan.forward_duty == 0,
            fan.backward_duty == 0,
            fan.enabled,
            fan.max_duty == max_duty,
            fan.period == period,
    {
        Fan { forward_duty: 0, backward_duty: 0, enabled: true, max_duty, period }
    }

    /// Drives forward at duty `speed`: zeroes the backward channel, then
    /// programs the forward channel, leaving the peripheral actively
    /// driving.  `speed` is an absolute duty-cycle count; no bound
    /// against `max_duty` is checked here, so the programmed duty equals
    /// the request over the whole `u16` range, and an out-of-range count
    /// is left to the peripheral.
    pub fn forward(&mut self, speed: u16)
        ensures
            final(self).forward_duty == speed,
            final(self).backward_duty == 0,
            final(self).enabled,
            final(self).single_channel(),
            final(self).max_duty == old(self).max_duty,
            final(self).period == old(self).period,
    {
        self.backward_duty = 0;
        self.forward_duty = speed;
        self.enabled = true;
    }

    /// Drives backward at duty `speed`: zeroes the forward channel, then
    /// programs the backward channel, leaving the peripheral actively
    /// driving.  Bounds are treated as in `forward`.
    pub fn backwards(&mut self, speed: u16)
        ensures
            final(self).backward_duty == speed,
            final(self).forward_duty == 0,
            final(self).enabled,
            final(self).single_channel(),
            final(self).max_duty == old(self).max_duty,
            final(self).period == old(self).period,
    {
        self.forward_duty = 0;
        self.backward_duty = speed;
        self.enabled = true;
    }

    /// Disables the peripheral outright: both channels cease to deliver
    /// any drive, whatever duty counts they hold.  The counts themselves
    /// are kept, which is what distinguishes a stop from programming a
    /// zero duty.
    pub fn stop(&mut self)
        ensures
            !final(self).enabled,
            final(self).forward_output() == 0,
            final(self).backward_output() == 0,
            final(self).forward_duty == old(self).forward_duty,
            final(self).backward_duty == old(self).backward_duty,
            final(self).max_duty == old(self).max_duty,
            final(self).period == old(self).period,
    {
        self.enabled = false;
    }
}

} // verus!
