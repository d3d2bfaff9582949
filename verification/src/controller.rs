//! The firmware's main routine as a state machine.
//!
//! The runner performs each `Action` that `Controller::step` hands out (it
//! talks to the IMU, drives the LED, prints, sleeps) and answers with the
//! `Event` that describes how the action went. The controller decides what
//! comes next: bring the IMU up, ask it for rotation-vector reports, switch
//! the LED off, then poll forever, reporting how many messages arrived,
//! blinking the LED and pausing between polls.
use vstd::prelude::*;

use crate::cadence::{loop_interval_ms, IMU_REPORTING_INTERVAL_MS, MESSAGE_TIMEOUT_MS};

verus! {

/// What the controller waits for: the answer to the action it handed out last.
#[derive(Clone, Copy, Debug, PartialEq, Eq, Structural)]
pub enum Stage {
    /// Nothing handed out yet: waiting for the peripherals to be ready.
    Boot,
    /// Waiting for the IMU driver's initialisation.
    AwaitInit,
    /// Waiting for the rotation-vector report to be enabled.
    AwaitEnable,
    /// Waiting for the loop interval to be printed.
    AwaitAnnounce,
    /// Waiting for the LED to be switched off.
    AwaitLedOff,
    /// Waiting for the IMU's pending messages to be handled.
    AwaitMessages,
    /// Waiting for the message count to be printed.
    AwaitReport,
    /// Waiting for the LED to be toggled.
    AwaitToggle,
    /// Waiting for the pause between two polls to end.
    AwaitDelay,
    /// A start-up step failed: nothing more is done.
    Halted,
}

/// How the last action went, as the runner reports it.
#[derive(Clone, Copy, Debug, PartialEq, Eq, Structural)]
pub enum Event {
    /// The peripherals are set up and the IMU driver is built.
    Started,
    /// The action completed.
    Done,
    /// The action returned an error.
    Failed,
    /// The IMU's pending messages were handled; this many of them.
    Handled(u32),
}

/// What the runner must do next.
#[derive(Clone, Copy, Debug, PartialEq, Eq, Structural)]
pub enum Action {
    /// Initialise the IMU driver.
    InitImu,
    /// Ask the IMU for a rotation vector every this many milliseconds.
    EnableRotationVector(u16),
    /// Print the main loop's pause, in milliseconds.
    AnnounceLoopInterval(u8),
    /// Drive the LED low.
    SetLedLow,
    /// Handle all pending IMU messages, waiting at most this many milliseconds for each.
    HandleMessages(u8),
    /// Print how many messages were handled.
    ReportMessages(u32),
    /// Toggle the LED.
    ToggleLed,
    /// Pause for this many milliseconds.
    Delay(u8),
    /// Stop: a start-up step failed.
    Halt,
}

/// State of the main routine.
#[derive(Clone, Copy, Debug, PartialEq, Eq, Structural)]
pub struct Controller {
    /// The answer the controller waits for.
    pub stage: Stage,
    /// Interval requested from the IMU between two rotation-vector reports.
    pub report_interval_ms: u16,
    /// Pause between two polls of the IMU.
    pub loop_interval_ms: u8,
    /// Level last commanded on the LED (`true` for high); `None` before the
    /// controller first drove it.
    pub led_high: Option<bool>,
}

/// The LED level after a toggle of `level`.
pub open spec fn toggled(level: Option<bool>) -> Option<bool> {
    match level {
        Some(high) => Some(!high),
        None => None,
    }
}

impl Controller {
    /// The controller in `stage`, with every other field unchanged.
    pub open spec fn in_stage(self, stage: Stage) -> Controller {
        Controller { stage: stage, ..self }
    }

    /// Well-formed: the pause is the reporting interval narrowed to a byte,
    /// and once the LED has been driven its commanded level is known.
    pub open spec fn wf(self) -> bool {
        &&& self.loop_interval_ms == self.report_interval_ms % 256
        &&& match self.stage {
            Stage::AwaitLedOff | Stage::AwaitMessages | Stage::AwaitReport
            | Stage::AwaitToggle | Stage::AwaitDelay => self.led_high is Some,
            _ => true,
        }
    }

    /// `event` answers the action the controller handed out last. The results
    /// of driving the LED are ignored, so both `Done` and `Failed` answer them.
    pub open spec fn accepts(self, event: Event) -> bool {
        match self.stage {
            Stage::Boot => event is Started,
            Stage::AwaitInit | Stage::AwaitEnable | Stage::AwaitLedOff | Stage::AwaitToggle => {
                event is Done || event is Failed
            },
            Stage::AwaitAnnounce | Stage::AwaitReport | Stage::AwaitDelay => event is Done,
            Stage::AwaitMessages => event is Handled,
            Stage::Halted => true,
        }
    }

    /// The state after `event` and the action handed out for it.
    pub open spec fn next(self, event: Event) -> (Controller, Action) {
        match self.stage {
            Stage::Boot => (self.in_stage(Stage::AwaitInit), Action::InitImu),
            Stage::AwaitInit => if event is Failed {
                (self.in_stage(Stage::Halted), Action::Halt)
            } else {
                (
                    self.in_stage(Stage::AwaitEnable),
                    Action::EnableRotationVector(self.report_interval_ms),
                )
            },
            Stage::AwaitEnable => if event is Failed {
                (self.in_stage(Stage::Halted), Action::Halt)
            } else {
                (
                    self.in_stage(Stage::AwaitAnnounce),
                    Action::AnnounceLoopInterval(self.loop_interval_ms),
                )
            },
            Stage::AwaitAnnounce => (
                Controller { stage: Stage::AwaitLedOff, led_high: Some(false), ..self },
                Action::SetLedLow,
            ),
            Stage::AwaitLedOff => (
                self.in_stage(Stage::AwaitMessages),
                Action::HandleMessages(MESSAGE_TIMEOUT_MS),
            ),
            Stage::AwaitMessages => match event {
                Event::Handled(count) => if count > 0 {
                    (self.in_stage(Stage::AwaitReport), Action::ReportMessages(count))
                } else {
                    (
                        Controller {
                            stage: Stage::AwaitToggle,
                            led_high: toggled(self.led_high),
                            ..self
                        },
                        Action::ToggleLed,
                    )
                },
                _ => (self.in_stage(Stage::Halted), Action::Halt),
            },
            Stage::AwaitReport => (
                Controller { stage: Stage::AwaitToggle, led_high: toggled(self.led_high), ..self },
                Action::ToggleLed,
            ),
            Stage::AwaitToggle => (
                self.in_stage(Stage::AwaitDelay),
                Action::Delay(self.loop_interval_ms),
            ),
            Stage::AwaitDelay => (
                self.in_stage(Stage::AwaitMessages),
                Action::HandleMessages(MESSAGE_TIMEOUT_MS),
            ),
            Stage::Halted => (self, Action::Halt),
        }
    }

    /// A controller that has handed out nothing yet, set up for the IMU
    /// reporting interval and the byte-sized pause derived from it.
    pub fn new() -> (c: Controller)
        ensures
            c.stage == Stage::Boot,
            c.report_interval_ms == IMU_REPORTING_INTERVAL_MS,
            c.loop_interval_ms == IMU_REPORTING_INTERVAL_MS % 256,
            c.led_high is None,
            c.wf(),
    {
        Controller {
            stage: Stage::Boot,
            report_interval_ms: IMU_REPORTING_INTERVAL_MS,
            loop_interval_ms: loop_interval_ms(IMU_REPORTING_INTERVAL_MS),
            led_high: None,
        }
    }

    /// Whether `event` answers the action handed out last.
    pub fn accepts_event(&self, event: &Event) -> (ok: bool)
        ensures
            ok == self.accepts(*event),
    {
        match self.stage {
            Stage::Boot => matches!(event, Event::Started),
            Stage::AwaitInit | Stage::AwaitEnable | Stage::AwaitLedOff | Stage::AwaitToggle => {
                matches!(event, Event::Done | Event::Failed)
            },
            Stage::AwaitAnnounce | Stage::AwaitReport | Stage::AwaitDelay => {
                matches!(event, Event::Done)
            },
            Stage::AwaitMessages => matches!(event, Event::Handled(_)),
            Stage::Halted => true,
        }
    }

    /// Takes the answer to the last action and hands out the next one.
    pub fn step(&mut self, event: Event) -> (action: Action)
        requires
            old(self).accepts(event),
        ensures
            (*final(self), action) == old(self).next(event),
            old(self).wf() ==> final(self).wf(),
    {
        match self.stage {
            Stage::Boot => {
                self.stage = Stage::AwaitInit;
                Action::InitImu
            },
            Stage::AwaitInit => {
                if matches!(event, Event::Failed) {
                    self.stage = Stage::Halted;
                    Action::Halt
                } else {
                    self.stage = Stage::AwaitEnable;
                    Action::EnableRotationVector(self.report_interval_ms)
                }
            },
            Stage::AwaitEnable => {
                if matches!(event, Event::Failed) {
                    self.stage = Stage::Halted;
                    Action::Halt
                } else {
                    self.stage = Stage::AwaitAnnounce;
                    Action::AnnounceLoopInterval(self.loop_interval_ms)
                }
            },
            Stage::AwaitAnnounce => {
                self.stage = Stage::AwaitLedOff;
                self.led_high = Some(false);
                Action::SetLedLow
            },
            Stage::AwaitLedOff => {
                self.stage = Stage::AwaitMessages;
                Action::HandleMessages(MESSAGE_TIMEOUT_MS)
            },
            Stage::AwaitMessages => {
                match event {
                    Event::Handled(count) => {
                        if count > 0 {
                            self.stage = Stage::AwaitReport;
                            Action::ReportMessages(count)
                        } else {
                            self.stage = Stage::AwaitToggle;
                            self.led_high = toggle(self.led_high);
                            Action::ToggleLed
                        }
                    },
                    _ => {
                        self.stage = Stage::Halted;
                        Action::Halt
                    },
                }
            },
            Stage::AwaitReport => {
                self.stage = Stage::AwaitToggle;
                self.led_high = toggle(self.led_high);
                Action::ToggleLed
            },
            Stage::AwaitToggle => {
                self.stage = Stage::AwaitDelay;
                Action::Delay(self.loop_interval_ms)
            },
            Stage::AwaitDelay => {
                self.stage = Stage::AwaitMessages;
                Action::HandleMessages(MESSAGE_TIMEOUT_MS)
            },
            Stage::Halted => Action::Halt,
        }
    }
}

fn toggle(level: Option<bool>) -> (t: Option<bool>)
    ensures
        t == toggled(level),
{
    match level {
        Some(high) => Some(!high),
        None => None,
    }
}

} // verus!
