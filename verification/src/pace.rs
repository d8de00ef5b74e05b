//! What the program around the machine does from one frame to the next:
//! whether it runs freely or step by step, which reading of a key counts,
//! how much time the timers get, and when a cycle is due.

use vstd::prelude::*;

verus! {

/// The time that one step lets pass for the timers, in nanoseconds: a
/// six-hundredth of a second, rounded up, so that ten steps make a tick.
pub const STEP_NANOS: u64 = 1_666_667;

/// How the machine is run.
#[derive(Clone, Copy, Debug, PartialEq, Eq, Structural)]
pub enum RunMode {
    /// Cycle after cycle, as fast as the pace allows.
    Play,
    /// One cycle each time the step key is pressed.
    Step,
}

/// Which reading of a key counts.
#[derive(Clone, Copy, Debug, PartialEq, Eq, Structural)]
pub enum InputMode {
    /// A key counts in the frame in which it goes down.
    Once,
    /// A key counts for as long as it is down.
    Hold,
}

/// What is to be done in one frame.
#[derive(Clone, Copy, Debug, PartialEq, Eq, Structural)]
pub struct Turn {
    /// The time to let pass for the timers, in nanoseconds.
    pub tick_nanos: u64,
    /// Whether to run a cycle.
    pub cycle: bool,
    /// Whether to show the display after the cycle even if the cycle did not
    /// change it.
    pub show_always: bool,
    /// Whether the tone may sound; if not, it is to be silent whatever the
    /// sound timer holds.
    pub tone_allowed: bool,
}

/// Whether a key counts as held in this frame. While the machine is
/// stepped a key counts for as long as it is down, whatever `input_mode`
/// says: a press would be over before the step is taken.
pub open spec fn key_counts(
    input_mode: InputMode,
    run_mode: RunMode,
    held: bool,
    pressed: bool,
) -> bool {
    match input_mode {
        InputMode::Hold => held,
        InputMode::Once => if run_mode == RunMode::Step {
            held
        } else {
            pressed
        },
    }
}

/// Whether a key counts as held in this frame, given that it is down
/// (`held`) and that it went down in this frame (`pressed`).
pub fn key_state(input_mode: InputMode, run_mode: RunMode, held: bool, pressed: bool) -> (counts:
    bool)
    ensures
        counts == key_counts(input_mode, run_mode, held, pressed),
{
    match input_mode {
        InputMode::Hold => held,
        InputMode::Once => match run_mode {
            RunMode::Step => held,
            RunMode::Play => pressed,
        },
    }
}

/// The pace of the machine: how it is run, how long a cycle is to take, and
/// how long the next cycle has been waited for.
#[derive(Clone, Copy, Debug, PartialEq, Eq, Structural)]
pub struct Pacer {
    pub run_mode: RunMode,
    /// The time from one cycle to the next, in nanoseconds.
    pub nanos_per_cycle: u64,
    /// The time since the last cycle, in nanoseconds.
    pub waited: u64,
}

impl Pacer {
    /// The time waited once `elapsed_nanos` more have passed; it stops at
    /// the greatest number that it can hold.
    pub open spec fn waited_after(self, elapsed_nanos: u64) -> u64 {
        if self.waited + elapsed_nanos > u64::MAX {
            u64::MAX
        } else {
            (self.waited + elapsed_nanos) as u64
        }
    }

    /// What is to be done in a frame that comes `elapsed_nanos` after the
    /// one before, and in which the step key was pressed or not. A machine
    /// that plays gets the time for its timers and a cycle as soon as the
    /// time for one has been waited; a machine that is stepped gets both
    /// only when the step key is pressed, and is silent.
    pub open spec fn plan(self, elapsed_nanos: u64, step_pressed: bool) -> Turn {
        match self.run_mode {
            RunMode::Play => Turn {
                tick_nanos: elapsed_nanos,
                cycle: self.waited_after(elapsed_nanos) >= self.nanos_per_cycle,
                show_always: false,
                tone_allowed: true,
            },
            RunMode::Step => Turn {
                tick_nanos: if step_pressed {
                    STEP_NANOS
                } else {
                    0
                },
                cycle: step_pressed,
                show_always: true,
                tone_allowed: false,
            },
        }
    }

    /// The pace after that frame: the wait starts anew with a cycle, and the
    /// toggle key changes how the machine is run from the next frame on.
    pub open spec fn next(self, elapsed_nanos: u64, toggle_pressed: bool) -> Pacer {
        Pacer {
            run_mode: if toggle_pressed {
                match self.run_mode {
                    RunMode::Play => RunMode::Step,
                    RunMode::Step => RunMode::Play,
                }
            } else {
                self.run_mode
            },
            nanos_per_cycle: self.nanos_per_cycle,
            waited: match self.run_mode {
                RunMode::Play => if self.waited_after(elapsed_nanos) >= self.nanos_per_cycle {
                    0
                } else {
                    self.waited_after(elapsed_nanos)
                },
                RunMode::Step => self.waited,
            },
        }
    }

    /// A pace of one cycle every `nanos_per_cycle` nanoseconds, with nothing
    /// waited yet.
    pub fn new(run_mode: RunMode, nanos_per_cycle: u64) -> (pacer: Pacer)
        ensures
            pacer == (Pacer { run_mode, nanos_per_cycle, waited: 0 }),
    {
        Pacer { run_mode, nanos_per_cycle, waited: 0 }
    }

    /// Takes one frame, which comes `elapsed_nanos` after the one before,
    /// and says what is to be done in it.
    pub fn turn(&mut self, elapsed_nanos: u64, toggle_pressed: bool, step_pressed: bool) -> (turn:
        Turn)
        ensures
            turn == old(self).plan(elapsed_nanos, step_pressed),
            *final(self) == old(self).next(elapsed_nanos, toggle_pressed),
    {
        let turn: Turn = match self.run_mode {
            RunMode::Play => {
                let waited: u64 = if elapsed_nanos > u64::MAX - self.waited {
                    u64::MAX
                } else {
                    self.waited + elapsed_nanos
                };
                let cycle: bool = waited >= self.nanos_per_cycle;
                self.waited = if cycle {
                    0
                } else {
                    waited
                };
                Turn { tick_nanos: elapsed_nanos, cycle, show_always: false, tone_allowed: true }
            },
            RunMode::Step => Turn {
                tick_nanos: if step_pressed {
                    STEP_NANOS
                } else {
                    0
                },
                cycle: step_pressed,
                show_always: true,
                tone_allowed: false,
            },
        };
        if toggle_pressed {
            self.run_mode = match self.run_mode {
                RunMode::Play => RunMode::Step,
                RunMode::Step => RunMode::Play,
            };
        }
        turn
    }
}

} // verus!
