//! The user key dispatcher: it turns user key events into pointing settings.
//!
//! The dispatcher is driven from outside. It says in `request` what it waits
//! for; its driver does that, and hands the reply to `handle_reply`, which
//! changes the settings and says what to publish to the sensor.

use vstd::prelude::*;

use crate::keys::{UserCommand, UserKeyIds};
use crate::settings::{load_and_apply, save_current};
use crate::settings::{PointingRuntimeState, PointingSettingsSnapshot};
use crate::steps::{scroll_divisor, set_cpi, PointingSetCpiEvent};
use crate::steps::{CPI_STEPS, DEFAULT_CPI_STEP, DEFAULT_SCROLL_STEP, SCROLL_DIVISOR_STEPS};

verus! {

/// How long the pointing device is given to subscribe to CPI orders before the
/// first one is published: an order without a subscriber is dropped.
pub const SETTLE_MILLIS: u64 = 500;

/// The slot that is loaded at start-up.
pub const BOOT_SLOT: u8 = 1;

/// What the dispatcher waits for.
#[derive(Clone, Copy, Debug, PartialEq, Eq)]
pub enum Request {
    /// Let this much time pass.
    Wait { millis: u64 },
    /// Read a slot.
    ReadSlot { slot: u8 },
    /// Write a slot.
    WriteSlot { slot: u8, snapshot: PointingSettingsSnapshot },
    /// Receive the next user key event.
    ReceiveKey,
}

/// What became of a request.
#[derive(Clone, Copy, Debug, PartialEq, Eq)]
pub enum Reply {
    /// The time has passed.
    Waited,
    /// What the slot holds; `None` where it is empty or not a snapshot.
    SlotRead { snapshot: Option<PointingSettingsSnapshot> },
    /// Whether the slot could be written.
    SlotWritten { ok: bool },
    /// A user key was pressed or released.
    Key { id: u8, pressed: bool },
}

impl Reply {
    /// The reply is one to that request.
    pub open spec fn answers(self, request: Request) -> bool {
        match request {
            Request::Wait { .. } => self is Waited,
            Request::ReadSlot { .. } => self is SlotRead,
            Request::WriteSlot { .. } => self is SlotWritten,
            Request::ReceiveKey => self is Key,
        }
    }
}

/// The state of the dispatcher.
#[derive(Clone, Copy, Debug, PartialEq, Eq)]
pub struct PointingDispatcher {
    pub cpi_step: u8,
    pub scroll_step: u8,
    /// The CPI step to go back to when the snipe key is released.
    pub snipe_saved_step: Option<u8>,
    /// Start-up is over: the boot slot was read.
    pub booted: bool,
    pub request: Request,
}

/// The state after an event, and what is to be published.
pub struct Outcome {
    pub dispatcher: PointingDispatcher,
    pub runtime: PointingRuntimeState,
    pub publish: Option<PointingSetCpiEvent>,
}

/// The next higher of `count` steps; the highest stays.
pub open spec fn raised(step: u8, count: nat) -> u8 {
    if step + 1 < count { (step + 1) as u8 } else { step }
}

/// The next lower step; the lowest stays.
pub open spec fn lowered(step: u8) -> u8 {
    if step > 0 { (step - 1) as u8 } else { step }
}

impl PointingDispatcher {
    /// Every step is an entry of its table, and what the dispatcher waits for
    /// fits how far it has come.
    pub open spec fn wf(self) -> bool {
        &&& crate::steps::is_cpi_step(self.cpi_step)
        &&& crate::steps::is_scroll_step(self.scroll_step)
        &&& self.snipe_saved_step matches Some(step) ==> crate::steps::is_cpi_step(step)
        &&& match self.request {
            Request::Wait { millis } => !self.booted && millis == SETTLE_MILLIS,
            Request::ReadSlot { slot } => if self.booted {
                slot == 1 || slot == 2
            } else {
                slot == BOOT_SLOT
            },
            Request::WriteSlot { slot, snapshot } => {
                &&& self.booted
                &&& slot == 1 || slot == 2
                &&& snapshot.in_range()
            },
            Request::ReceiveKey => self.booted,
        }
    }

    /// The dispatcher at power-on.
    pub open spec fn at_power_on() -> Self {
        PointingDispatcher {
            cpi_step: DEFAULT_CPI_STEP,
            scroll_step: DEFAULT_SCROLL_STEP,
            snipe_saved_step: None,
            booted: false,
            request: Request::Wait { millis: SETTLE_MILLIS },
        }
    }

    /// Nothing happens but that the dispatcher now waits for `request`.
    pub open spec fn asking(self, runtime: PointingRuntimeState, request: Request) -> Outcome {
        Outcome { dispatcher: PointingDispatcher { request, ..self }, runtime, publish: None }
    }

    /// The sensor is put at CPI step `step`.
    pub open spec fn at_cpi(self, runtime: PointingRuntimeState, step: u8) -> Outcome {
        Outcome {
            dispatcher: PointingDispatcher { cpi_step: step, ..self },
            runtime,
            publish: Some(crate::steps::cpi_event(step)),
        }
    }

    /// Scrolling is put at scroll step `step`.
    pub open spec fn at_scroll(self, runtime: PointingRuntimeState, step: u8) -> Outcome {
        Outcome {
            dispatcher: PointingDispatcher { scroll_step: step, ..self },
            runtime: PointingRuntimeState {
                scroll_divisor: crate::steps::divisor(step),
                ..runtime
            },
            publish: None,
        }
    }

    /// Only the runtime settings change.
    pub open spec fn with_runtime(self, runtime: PointingRuntimeState) -> Outcome {
        Outcome { dispatcher: self, runtime, publish: None }
    }

    /// `snapshot` is in force.
    pub open spec fn with_snapshot(self, snapshot: PointingSettingsSnapshot) -> Outcome {
        Outcome {
            dispatcher: PointingDispatcher {
                cpi_step: snapshot.cpi_step,
                scroll_step: snapshot.scroll_step,
                ..self
            },
            runtime: snapshot.runtime(),
            publish: Some(crate::steps::cpi_event(snapshot.cpi_step)),
        }
    }

    /// What a command does.
    pub open spec fn after_command(
        self,
        runtime: PointingRuntimeState,
        command: UserCommand,
    ) -> Outcome {
        match command {
            UserCommand::CpiUp => {
                let step = raised(self.cpi_step, CPI_STEPS@.len());
                if step != self.cpi_step {
                    self.at_cpi(runtime, step)
                } else {
                    self.with_runtime(runtime)
                }
            },
            UserCommand::CpiDown => {
                let step = lowered(self.cpi_step);
                if step != self.cpi_step {
                    self.at_cpi(runtime, step)
                } else {
                    self.with_runtime(runtime)
                }
            },
            UserCommand::CursorToggle => self.with_runtime(
                PointingRuntimeState { cursor_enabled: !runtime.cursor_enabled, ..runtime },
            ),
            UserCommand::SnipePress => match self.snipe_saved_step {
                None => PointingDispatcher {
                    snipe_saved_step: Some(self.cpi_step),
                    ..self
                }.at_cpi(runtime, 0),
                Some(_) => self.with_runtime(runtime),
            },
            UserCommand::SnipeRelease => match self.snipe_saved_step {
                Some(step) => PointingDispatcher { snipe_saved_step: None, ..self }.at_cpi(
                    runtime,
                    step,
                ),
                None => self.with_runtime(runtime),
            },
            UserCommand::ScrollSpeedUp => {
                let step = lowered(self.scroll_step);
                if step != self.scroll_step {
                    self.at_scroll(runtime, step)
                } else {
                    self.with_runtime(runtime)
                }
            },
            UserCommand::ScrollSpeedDown => {
                let step = raised(self.scroll_step, SCROLL_DIVISOR_STEPS@.len());
                if step != self.scroll_step {
                    self.at_scroll(runtime, step)
                } else {
                    self.with_runtime(runtime)
                }
            },
            UserCommand::ScrollInvertX => self.with_runtime(
                PointingRuntimeState { scroll_invert_pan: !runtime.scroll_invert_pan, ..runtime },
            ),
            UserCommand::ScrollInvertY => self.with_runtime(
                PointingRuntimeState { scroll_invert_wheel: !runtime.scroll_invert_wheel, ..runtime },
            ),
            UserCommand::SaveSlot { slot } => self.asking(
                runtime,
                Request::WriteSlot {
                    slot,
                    snapshot: crate::settings::snapshot_of(
                        runtime,
                        self.cpi_step,
                        self.scroll_step,
                    ),
                },
            ),
            UserCommand::LoadSlot { slot } => self.asking(runtime, Request::ReadSlot { slot }),
        }
    }

    /// What becomes of the reading of a slot. A usable snapshot is put in
    /// force. Without one nothing changes, but at start-up the active CPI step
    /// is published all the same.
    pub open spec fn after_read(
        self,
        runtime: PointingRuntimeState,
        read: Option<PointingSettingsSnapshot>,
    ) -> Outcome {
        let ready = PointingDispatcher { booted: true, request: Request::ReceiveKey, ..self };
        match crate::settings::usable(read) {
            Some(snapshot) => ready.with_snapshot(snapshot),
            None => if self.booted {
                ready.with_runtime(runtime)
            } else {
                ready.at_cpi(runtime, self.cpi_step)
            },
        }
    }

    /// What a reply does.
    pub open spec fn after_reply(
        self,
        keys: UserKeyIds,
        runtime: PointingRuntimeState,
        reply: Reply,
    ) -> Outcome {
        match reply {
            Reply::Waited => self.asking(runtime, Request::ReadSlot { slot: BOOT_SLOT }),
            Reply::SlotRead { snapshot } => self.after_read(runtime, snapshot),
            Reply::SlotWritten { .. } => self.asking(runtime, Request::ReceiveKey),
            Reply::Key { id, pressed } => match keys.meaning(id, pressed) {
                Some(command) => self.after_command(runtime, command),
                None => self.with_runtime(runtime),
            },
        }
    }

    /// The dispatcher at power-on, which waits for the pointing device to
    /// settle.
    pub fn new() -> (dispatcher: Self)
        ensures
            dispatcher == Self::at_power_on(),
            dispatcher.wf(),
    {
        PointingDispatcher {
            cpi_step: DEFAULT_CPI_STEP,
            scroll_step: DEFAULT_SCROLL_STEP,
            snipe_saved_step: None,
            booted: false,
            request: Request::Wait { millis: SETTLE_MILLIS },
        }
    }

    /// Carries out a command that a user key asked for. The result is the order
    /// to publish to the sensor, if there is one.
    fn handle_command(
        &mut self,
        runtime: &mut PointingRuntimeState,
        command: UserCommand,
    ) -> (publish: Option<PointingSetCpiEvent>)
        requires
            old(self).wf(),
        ensures
            (Outcome { dispatcher: *final(self), runtime: *final(runtime), publish })
                == old(self).after_command(*old(runtime), command),
    {
        match command {
            UserCommand::CpiUp => {
                if self.cpi_step + 1 < CPI_STEPS.len() as u8 {
                    self.cpi_step = self.cpi_step + 1;
                    return Some(set_cpi(self.cpi_step));
                }
                None
            },
            UserCommand::CpiDown => {
                if self.cpi_step > 0 {
                    self.cpi_step = self.cpi_step - 1;
                    return Some(set_cpi(self.cpi_step));
                }
                None
            },
            UserCommand::CursorToggle => {
                runtime.cursor_enabled = !runtime.cursor_enabled;
                None
            },
            UserCommand::SnipePress => {
                if self.snipe_saved_step.is_none() {
                    self.snipe_saved_step = Some(self.cpi_step);
                    self.cpi_step = 0;
                    return Some(set_cpi(self.cpi_step));
                }
                None
            },
            UserCommand::SnipeRelease => {
                if let Some(saved) = self.snipe_saved_step {
                    self.snipe_saved_step = None;
                    self.cpi_step = saved;
                    return Some(set_cpi(self.cpi_step));
                }
                None
            },
            UserCommand::ScrollSpeedUp => {
                if self.scroll_step > 0 {
                    self.scroll_step = self.scroll_step - 1;
                    runtime.scroll_divisor = scroll_divisor(self.scroll_step);
                }
                None
            },
            UserCommand::ScrollSpeedDown => {
                if self.scroll_step + 1 < SCROLL_DIVISOR_STEPS.len() as u8 {
                    self.scroll_step = self.scroll_step + 1;
                    runtime.scroll_divisor = scroll_divisor(self.scroll_step);
                }
                None
            },
            UserCommand::ScrollInvertX => {
                runtime.scroll_invert_pan = !runtime.scroll_invert_pan;
                None
            },
            UserCommand::ScrollInvertY => {
                runtime.scroll_invert_wheel = !runtime.scroll_invert_wheel;
                None
            },
            UserCommand::SaveSlot { slot } => {
                let snapshot = save_current(runtime, self.cpi_step, self.scroll_step);
                self.request = Request::WriteSlot { slot, snapshot };
                None
            },
            UserCommand::LoadSlot { slot } => {
                self.request = Request::ReadSlot { slot };
                None
            },
        }
    }

    /// Takes in the reply to the dispatcher's request. The result is the order
    /// to publish to the sensor, if there is one; what to do next is in
    /// `request`.
    pub fn handle_reply(
        &mut self,
        keys: &UserKeyIds,
        runtime: &mut PointingRuntimeState,
        reply: Reply,
    ) -> (publish: Option<PointingSetCpiEvent>)
        requires
            old(self).wf(),
            reply.answers(old(self).request),
        ensures
            (Outcome { dispatcher: *final(self), runtime: *final(runtime), publish })
                == old(self).after_reply(*keys, *old(runtime), reply),
            final(self).wf(),
    {
        match reply {
            Reply::Waited => {
                self.request = Request::ReadSlot { slot: BOOT_SLOT };
                None
            },
            Reply::SlotRead { snapshot } => {
                let booting = !self.booted;
                self.booted = true;
                self.request = Request::ReceiveKey;
                match load_and_apply(runtime, snapshot) {
                    Some(applied) => {
                        self.cpi_step = applied.cpi_step;
                        self.scroll_step = applied.scroll_step;
                        Some(applied.publish)
                    },
                    None => if booting {
                        Some(set_cpi(self.cpi_step))
                    } else {
                        None
                    },
                }
            },
            Reply::SlotWritten { ok: _ } => {
                self.request = Request::ReceiveKey;
                None
            },
            Reply::Key { id, pressed } => match keys.command(id, pressed) {
                Some(command) => self.handle_command(runtime, command),
                None => None,
            },
        }
    }
}

} // verus!
