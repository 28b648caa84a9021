//! The fixed control sequence that drives the indicator and the motor.

use vstd::prelude::*;
use crate::fan::Fan;
use crate::light::Light;

verus! {

/// How long the boot indication holds red, then yellow, in milliseconds.
pub const BOOT_HOLD_MS: u32 = 2000;

/// How long each motor phase of the cycle holds, in milliseconds.
pub const DRIVE_HOLD_MS: u32 = 5000;

/// The length of one idle wait once the sequence has halted, in
/// milliseconds; the halted sequence repeats it forever.
pub const HALT_IDLE_MS: u32 = 500000;

/// The duty-cycle count at which the cycle drives the motor, both ways.
pub const DRIVE_DUTY: u16 = 800;

/// Where the control sequence stands.  From power-on it walks these
/// phases in declaration order, one transition per step, and stays in
/// `Halted` for good: the single motor cycle is never rerun.
#[derive(Clone, Copy, PartialEq, Eq, Structural, Debug)]
pub enum Phase {
    /// Power-on: nothing lit, no drive yet.
    Start,
    /// Boot indication, red lit.
    BootRed,
    /// Boot indication, yellow lit.
    BootYellow,
    /// Boot indication, green lit; green then stays lit through the
    /// whole motor cycle.
    BootGreen,
    /// The cycle drives the motor forward.
    DrivingForward,
    /// The cycle has stopped the motor between the two directions.
    Resting,
    /// The cycle drives the motor backward.
    DrivingBackward,
    /// The cycle is over: motor stopped, red lit, idle forever.
    Halted,
}

/// The phase one step leads to.
pub open spec fn next_phase(p: Phase) -> Phase {
    match p {
        Phase::Start => Phase::BootRed,
        Phase::BootRed => Phase::BootYellow,
        Phase::BootYellow => Phase::BootGreen,
        Phase::BootGreen => Phase::DrivingForward,
        Phase::DrivingForward => Phase::Resting,
        Phase::Resting => Phase::DrivingBackward,
        Phase::DrivingBackward => Phase::Halted,
        Phase::Halted => Phase::Halted,
    }
}

/// How long the sequence blocks after entering a phase, in milliseconds.
/// Green holds no time of its own: the first motor phase supersedes it
/// at once, and green simply stays lit meanwhile.
pub open spec fn hold_ms(p: Phase) -> u32 {
    match p {
        Phase::Start => 0,
        Phase::BootRed => BOOT_HOLD_MS,
        Phase::BootYellow => BOOT_HOLD_MS,
        Phase::BootGreen => 0,
        Phase::DrivingForward => DRIVE_HOLD_MS,
        Phase::Resting => DRIVE_HOLD_MS,
        Phase::DrivingBackward => DRIVE_HOLD_MS,
        Phase::Halted => HALT_IDLE_MS,
    }
}

/// The indicator reading the sequence maintains in each phase.
pub open spec fn indicator_ok(p: Phase, light: Light) -> bool {
    match p {
        Phase::Start => light.all_off(),
        Phase::BootRed => light.only_red(),
        Phase::BootYellow => light.only_yellow(),
        Phase::BootGreen => light.only_green(),
        Phase::DrivingForward => light.only_green(),
        Phase::Resting => light.only_green(),
        Phase::DrivingBackward => light.only_green(),
        Phase::Halted => light.only_red(),
    }
}

/// The motor state the sequence maintains in each phase.
pub open spec fn motor_ok(p: Phase, fan: Fan) -> bool {
    match p {
        Phase::Start => fan.forward_output() == 0 && fan.backward_output() == 0,
        Phase::BootRed => fan.forward_output() == 0 && fan.backward_output() == 0,
        Phase::BootYellow => fan.forward_output() == 0 && fan.backward_output() == 0,
        Phase::BootGreen => fan.forward_output() == 0 && fan.backward_output() == 0,
        Phase::DrivingForward => fan.enabled && fan.forward_duty == DRIVE_DUTY
            && fan.backward_duty == 0,
        Phase::Resting => !fan.enabled,
        Phase::DrivingBackward => fan.enabled && fan.backward_duty == DRIVE_DUTY
            && fan.forward_duty == 0,
        Phase::Halted => !fan.enabled,
    }
}

/// The phase the sequence is in after `n` steps from power-on.
pub open spec fn phase_after(n: nat) -> Phase
    decreases n,
{
    if n == 0 {
        Phase::Start
    } else {
        next_phase(phase_after((n - 1) as nat))
    }
}

/// The control sequence itself: the two components it owns exclusively
/// for the whole program lifetime, and the phase it stands in.
pub struct Controller {
    pub light: Light,
    pub fan: Fan,
    pub phase: Phase,
}

impl Controller {
    /// The indicator and the motor read what the current phase demands,
    /// and the motor never carries a nonzero duty on both channels.
    pub open spec fn wf(self) -> bool {
        indicator_ok(self.phase, self.light) && motor_ok(self.phase, self.fan)
            && self.fan.single_channel()
    }

    /// Acquires the two components at power-on: indicator dark, motor
    /// channels at zero duty, with the duty range and period the
    /// peripheral resolved.
    pub fn new(max_duty: u16, period: u32) -> (ctl: Controller)
        ensures
            ctl.phase == Phase::Start,
            ctl.wf(),
            ctl.fan.max_duty == max_duty,
            ctl.fan.period == period,
    {
        Controller { light: Light::new(), fan: Fan::new(max_duty, period), phase: Phase::Start }
    }

    /// Runtime check of `wf`, for a caller outside verified code that
    /// wants to confirm the state it holds before stepping.
    pub fn is_wf(&self) -> (r: bool)
        ensures
            r == self.wf(),
    {
        let lights_ok: bool = match self.phase {
            Phase::Start => !self.light.red && !self.light.yellow && !self.light.green,
            Phase::BootRed => self.light.red && !self.light.yellow && !self.light.green,
            Phase::BootYellow => !self.light.red && self.light.yellow && !self.light.green,
            Phase::BootGreen | Phase::DrivingForward | Phase::Resting | Phase::DrivingBackward =>
                !self.light.red && !self.light.yellow && self.light.green,
            Phase::Halted => self.light.red && !self.light.yellow && !self.light.green,
        };
        let motor_fine: bool = match self.phase {
            Phase::Start | Phase::BootRed | Phase::BootYellow | Phase::BootGreen =>
                !self.fan.enabled || (self.fan.forward_duty == 0 && self.fan.backward_duty == 0),
            Phase::DrivingForward => self.fan.enabled && self.fan.forward_duty == DRIVE_DUTY
                && self.fan.backward_duty == 0,
            Phase::Resting => !self.fan.enabled,
            Phase::DrivingBackward => self.fan.enabled && self.fan.backward_duty == DRIVE_DUTY
                && self.fan.forward_duty == 0,
            Phase::Halted => !self.fan.enabled,
        };
        lights_ok && motor_fine && (self.fan.forward_duty == 0 || self.fan.backward_duty == 0)
    }

    /// Makes one transition of the sequence: performs the indicator and
    /// motor actions the next phase demands, and returns how many
    /// milliseconds the caller must then block before stepping again.
    /// Once halted, every further step leaves the state alone and asks
    /// for another idle wait.
    pub fn step(&mut self) -> (delay_ms: u32)
        requires
            old(self).wf(),
        ensures
            final(self).phase == next_phase(old(self).phase),
            final(self).wf(),
            delay_ms == hold_ms(final(self).phase),
            final(self).fan.max_duty == old(self).fan.max_duty,
            final(self).fan.period == old(self).fan.period,
    {
        match self.phase {
            Phase::Start => {
                self.light.set_off();
                self.light.red();
                self.phase = Phase::BootRed;
                BOOT_HOLD_MS
            },
            Phase::BootRed => {
                self.light.yellow();
                self.phase = Phase::BootYellow;
                BOOT_HOLD_MS
            },
            Phase::BootYellow => {
                self.light.green();
                self.phase = Phase::BootGreen;
                0
            },
            Phase::BootGreen => {
                self.fan.forward(DRIVE_DUTY);
                self.phase = Phase::DrivingForward;
                DRIVE_HOLD_MS
            },
            Phase::DrivingForward => {
                self.fan.stop();
                self.phase = Phase::Resting;
                DRIVE_HOLD_MS
            },
            Phase::Resting => {
                self.fan.backwards(DRIVE_DUTY);
                self.phase = Phase::DrivingBackward;
                DRIVE_HOLD_MS
            },
            Phase::DrivingBackward => {
                self.fan.stop();
                self.light.red();
                self.phase = Phase::Halted;
                HALT_IDLE_MS
            },
            Phase::Halted => {
                HALT_IDLE_MS
            },
        }
    }
}

/// Stepping once from the state reached after `n` steps reaches the
/// state after `n + 1` steps.
pub proof fn lemma_phase_after_step(n: nat)
    ensures
        next_phase(phase_after(n)) == phase_after(n + 1),
{
}

/// After seven steps the sequence has halted, and it stays halted at
/// every later step.
pub proof fn lemma_halts(n: nat)
    requires
        n >= 7,
    ensures
        phase_after(n) == Phase::Halted,
    decreases n,
{
    if n == 7 {
        assert(phase_after(0) == Phase::Start);
        assert(phase_after(1) == Phase::BootRed);
        assert(phase_after(2) == Phase::BootYellow);
        assert(phase_after(3) == Phase::BootGreen);
        assert(phase_after(4) == Phase::DrivingForward);
        assert(phase_after(5) == Phase::Resting);
        assert(phase_after(6) == Phase::DrivingBackward);
        assert(phase_after(7) == Phase::Halted);
    } else {
        lemma_halts((n - 1) as nat);
    }
}

/// From power-on, the indicator reading over the steps is exactly: off,
/// then red held for the first boot wait, then yellow held for the
/// second, then green through the whole motor cycle, then red forever.
/// No other color sequence occurs.
pub proof fn lemma_indicator_sequence(ctl: Controller, n: nat)
    requires
        ctl.wf(),
        ctl.phase == phase_after(n),
    ensures
        n == 0 ==> ctl.light.all_off(),
        n == 1 ==> ctl.light.only_red() && hold_ms(ctl.phase) == BOOT_HOLD_MS,
        n == 2 ==> ctl.light.only_yellow() && hold_ms(ctl.phase) == BOOT_HOLD_MS,
        3 <= n <= 6 ==> ctl.light.only_green(),
        n >= 7 ==> ctl.light.only_red(),
{
    if n <= 7 {
        assert(phase_after(0) == Phase::Start);
        assert(phase_after(1) == Phase::BootRed);
        assert(phase_after(2) == Phase::BootYellow);
        assert(phase_after(3) == Phase::BootGreen);
        assert(phase_after(4) == Phase::DrivingForward);
        assert(phase_after(5) == Phase::Resting);
        assert(phase_after(6) == Phase::DrivingBackward);
        assert(phase_after(7) == Phase::Halted);
    } else {
        lemma_halts(n);
    }
}

/// From power-on, the drive the motor delivers over the steps is
/// exactly: nothing through the boot indication, then forward at the
/// drive duty with the backward channel at zero, then disabled, then
/// backward at the drive duty with the forward channel at zero, then
/// disabled forever, each driven phase held for the cycle wait.  At no
/// step do both channels carry a nonzero duty.
pub proof fn lemma_motor_sequence(ctl: Controller, n: nat)
    requires
        ctl.wf(),
        ctl.phase == phase_after(n),
    ensures
        n <= 3 ==> ctl.fan.forward_output() == 0 && ctl.fan.backward_output() == 0,
        n == 4 ==> ctl.fan.enabled && ctl.fan.forward_duty == DRIVE_DUTY
            && ctl.fan.backward_duty == 0 && hold_ms(ctl.phase) == DRIVE_HOLD_MS,
        n == 5 ==> !ctl.fan.enabled && hold_ms(ctl.phase) == DRIVE_HOLD_MS,
        n == 6 ==> ctl.fan.enabled && ctl.fan.backward_duty == DRIVE_DUTY
            && ctl.fan.forward_duty == 0 && hold_ms(ctl.phase) == DRIVE_HOLD_MS,
        n >= 7 ==> !ctl.fan.enabled && hold_ms(ctl.phase) == HALT_IDLE_MS,
        ctl.fan.forward_duty == 0 || ctl.fan.backward_duty == 0,
{
    if n <= 7 {
        assert(phase_after(0) == Phase::Start);
        assert(phase_after(1) == Phase::BootRed);
        assert(phase_after(2) == Phase::BootYellow);
        assert(phase_after(3) == Phase::BootGreen);
        assert(phase_after(4) == Phase::DrivingForward);
        assert(phase_after(5) == Phase::Resting);
        assert(phase_after(6) == Phase::DrivingBackward);
        assert(phase_after(7) == Phase::Halted);
    } else {
        lemma_halts(n);
    }
}

} // verus!
