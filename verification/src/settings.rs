//! The pointing settings: what is in force, what a slot keeps, and how the one
//! is made from the other.

use vstd::prelude::*;

use crate::steps::{scroll_divisor, set_cpi, PointingSetCpiEvent};
use crate::steps::{CPI_STEPS, DEFAULT_SCROLL_STEP, SCROLL_DIVISOR_STEPS};

verus! {

/// The settings that the pointing processor reads with every motion report.
#[derive(Clone, Copy, Debug, PartialEq, Eq)]
pub struct PointingRuntimeState {
    pub cursor_enabled: bool,
    pub scroll_divisor: u8,
    pub scroll_invert_wheel: bool,
    pub scroll_invert_pan: bool,
}

/// The settings that a slot keeps.
#[derive(Clone, Copy, Debug, PartialEq, Eq)]
pub struct PointingSettingsSnapshot {
    pub cpi_step: u8,
    pub scroll_step: u8,
    pub cursor_enabled: bool,
    pub scroll_invert_wheel: bool,
    pub scroll_invert_pan: bool,
}

/// What comes of a snapshot that was put in force: the steps now active, and
/// the order that is to be published to the sensor.
#[derive(Clone, Copy, Debug, PartialEq, Eq)]
pub struct AppliedSnapshot {
    pub cpi_step: u8,
    pub scroll_step: u8,
    pub publish: PointingSetCpiEvent,
}

impl PointingRuntimeState {
    /// The settings at power-on: the cursor moves, scrolling is at its default
    /// step, and neither scroll direction is inverted.
    pub open spec fn at_power_on() -> Self {
        PointingRuntimeState {
            cursor_enabled: true,
            scroll_divisor: crate::steps::divisor(DEFAULT_SCROLL_STEP),
            scroll_invert_wheel: false,
            scroll_invert_pan: false,
        }
    }

    /// The settings at power-on.
    pub fn initial() -> (state: Self)
        ensures
            state == Self::at_power_on(),
    {
        PointingRuntimeState {
            cursor_enabled: true,
            scroll_divisor: scroll_divisor(DEFAULT_SCROLL_STEP),
            scroll_invert_wheel: false,
            scroll_invert_pan: false,
        }
    }
}

impl PointingSettingsSnapshot {
    /// Both steps name an entry of their table.
    pub open spec fn in_range(self) -> bool {
        &&& crate::steps::is_cpi_step(self.cpi_step)
        &&& crate::steps::is_scroll_step(self.scroll_step)
    }

    /// The runtime settings that the snapshot stands for.
    pub open spec fn runtime(self) -> PointingRuntimeState {
        PointingRuntimeState {
            cursor_enabled: self.cursor_enabled,
            scroll_divisor: crate::steps::divisor(self.scroll_step),
            scroll_invert_wheel: self.scroll_invert_wheel,
            scroll_invert_pan: self.scroll_invert_pan,
        }
    }

    /// What putting the snapshot in force gives its caller.
    pub open spec fn applied(self) -> AppliedSnapshot {
        AppliedSnapshot {
            cpi_step: self.cpi_step,
            scroll_step: self.scroll_step,
            publish: crate::steps::cpi_event(self.cpi_step),
        }
    }
}

/// The snapshot that `read` gives, if it gives one and its steps are in range.
pub open spec fn usable(read: Option<PointingSettingsSnapshot>) -> Option<PointingSettingsSnapshot> {
    match read {
        Some(snapshot) if snapshot.in_range() => Some(snapshot),
        _ => None,
    }
}

/// Puts `snapshot` in force, unless one of its steps is out of range: then
/// `runtime` stays as it was, and there is nothing to publish.
pub fn apply_snapshot(
    runtime: &mut PointingRuntimeState,
    snapshot: PointingSettingsSnapshot,
) -> (applied: Option<AppliedSnapshot>)
    ensures
        snapshot.in_range() ==> {
            &&& applied == Some(snapshot.applied())
            &&& *final(runtime) == snapshot.runtime()
        },
        !snapshot.in_range() ==> applied is None && *final(runtime) == *old(runtime),
{
    if snapshot.cpi_step as usize >= CPI_STEPS.len()
        || snapshot.scroll_step as usize >= SCROLL_DIVISOR_STEPS.len() {
        return None;
    }
    let divisor = scroll_divisor(snapshot.scroll_step);
    runtime.cursor_enabled = snapshot.cursor_enabled;
    runtime.scroll_divisor = divisor;
    runtime.scroll_invert_wheel = snapshot.scroll_invert_wheel;
    runtime.scroll_invert_pan = snapshot.scroll_invert_pan;
    Some(
        AppliedSnapshot {
            cpi_step: snapshot.cpi_step,
            scroll_step: snapshot.scroll_step,
            publish: set_cpi(snapshot.cpi_step),
        },
    )
}

/// Puts in force what was read from a slot. `read` is `None` where the slot is
/// empty or does not hold a snapshot. Nothing changes in that case, nor where
/// the snapshot is out of range.
pub fn load_and_apply(
    runtime: &mut PointingRuntimeState,
    read: Option<PointingSettingsSnapshot>,
) -> (applied: Option<AppliedSnapshot>)
    ensures
        match usable(read) {
            Some(snapshot) => {
                &&& applied == Some(snapshot.applied())
                &&& *final(runtime) == snapshot.runtime()
            },
            None => applied is None && *final(runtime) == *old(runtime),
        },
{
    match read {
        Some(snapshot) => apply_snapshot(runtime, snapshot),
        None => None,
    }
}

/// The snapshot of the settings in force at the given steps.
pub open spec fn snapshot_of(
    runtime: PointingRuntimeState,
    cpi_step: u8,
    scroll_step: u8,
) -> PointingSettingsSnapshot {
    PointingSettingsSnapshot {
        cpi_step,
        scroll_step,
        cursor_enabled: runtime.cursor_enabled,
        scroll_invert_wheel: runtime.scroll_invert_wheel,
        scroll_invert_pan: runtime.scroll_invert_pan,
    }
}

/// The snapshot that is to be written to a slot.
pub fn save_current(
    runtime: &PointingRuntimeState,
    cpi_step: u8,
    scroll_step: u8,
) -> (snapshot: PointingSettingsSnapshot)
    ensures
        snapshot == snapshot_of(*runtime, cpi_step, scroll_step),
{
    PointingSettingsSnapshot {
        cpi_step,
        scroll_step,
        cursor_enabled: runtime.cursor_enabled,
        scroll_invert_wheel: runtime.scroll_invert_wheel,
        scroll_invert_pan: runtime.scroll_invert_pan,
    }
}

/// A snapshot is put in force exactly if both its steps are below seven. Then
/// each setting is the snapshot's own, the divisor is the one at its scroll
/// step, and the sensor is ordered to the resolution at its CPI step.
pub proof fn law_snapshot_in_force(snapshot: PointingSettingsSnapshot)
    ensures
        snapshot.in_range() <==> snapshot.cpi_step < 7 && snapshot.scroll_step < 7,
        snapshot.runtime().cursor_enabled == snapshot.cursor_enabled,
        snapshot.runtime().scroll_invert_wheel == snapshot.scroll_invert_wheel,
        snapshot.runtime().scroll_invert_pan == snapshot.scroll_invert_pan,
        snapshot.runtime().scroll_divisor == SCROLL_DIVISOR_STEPS@[snapshot.scroll_step as int],
        snapshot.applied().cpi_step == snapshot.cpi_step,
        snapshot.applied().scroll_step == snapshot.scroll_step,
        snapshot.applied().publish.device_id == 0,
        snapshot.applied().publish.cpi == CPI_STEPS@[snapshot.cpi_step as int],
{
}

/// What was read is used exactly if it is a snapshot with both steps below
/// seven, and is then used as it was read.
pub proof fn law_what_is_usable(read: Option<PointingSettingsSnapshot>)
    ensures
        usable(read) is Some <==> (read matches Some(s) && s.cpi_step < 7 && s.scroll_step < 7),
        usable(read) is Some ==> usable(read) == read,
{
}

/// A saved snapshot holds every setting as it was.
pub proof fn law_snapshot_holds_the_settings(
    runtime: PointingRuntimeState,
    cpi_step: u8,
    scroll_step: u8,
)
    ensures
        snapshot_of(runtime, cpi_step, scroll_step).cpi_step == cpi_step,
        snapshot_of(runtime, cpi_step, scroll_step).scroll_step == scroll_step,
        snapshot_of(runtime, cpi_step, scroll_step).cursor_enabled == runtime.cursor_enabled,
        snapshot_of(runtime, cpi_step, scroll_step).scroll_invert_wheel
            == runtime.scroll_invert_wheel,
        snapshot_of(runtime, cpi_step, scroll_step).scroll_invert_pan == runtime.scroll_invert_pan,
{
}

/// Putting a snapshot in force and saving gives the same snapshot again.
pub proof fn law_save_undoes_apply(snapshot: PointingSettingsSnapshot)
    ensures
        snapshot_of(
            snapshot.runtime(),
            snapshot.applied().cpi_step,
            snapshot.applied().scroll_step,
        ) == snapshot,
{
}

/// At power-on the cursor moves, the divisor is 24, and nothing is inverted.
pub proof fn law_power_on_settings()
    ensures
        PointingRuntimeState::at_power_on().cursor_enabled,
        PointingRuntimeState::at_power_on().scroll_divisor == 24,
        !PointingRuntimeState::at_power_on().scroll_invert_wheel,
        !PointingRuntimeState::at_power_on().scroll_invert_pan,
{
}

} // verus!
