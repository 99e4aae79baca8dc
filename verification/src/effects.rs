//! What each reply does to every single setting, and what it leaves alone.

use vstd::prelude::*;

use crate::dispatcher::{PointingDispatcher, Reply, Request};
use crate::keys::{UserCommand, UserKeyIds};
use crate::settings::{PointingRuntimeState, PointingSettingsSnapshot};
use crate::steps::{PointingSetCpiEvent, CPI_STEPS, SCROLL_DIVISOR_STEPS};

verus! {

/// The dispatcher starts at the middle steps, holds no snipe, and first lets
/// half a second pass.
pub proof fn law_power_on_dispatcher()
    ensures
        ({
            let d = PointingDispatcher::at_power_on();
            &&& d.cpi_step == 3
            &&& d.scroll_step == 3
            &&& d.snipe_saved_step is None
            &&& !d.booted
            &&& d.request == (Request::Wait { millis: 500 })
            &&& d.wf()
        }),
{
}

/// A dispatcher that is up and waits for keys can have any of the seven steps of
/// each table, with the snipe key held or not; and no dispatcher is off its
/// tables.
pub proof fn law_steps_of_a_dispatcher(d: PointingDispatcher)
    ensures
        d.booted && d.request is ReceiveKey ==> (d.wf() <==> {
            &&& d.cpi_step < 7
            &&& d.scroll_step < 7
            &&& d.snipe_saved_step matches Some(step) ==> step < 7
        }),
        d.booted && d.wf() ==> {
            &&& PointingDispatcher { request: Request::ReceiveKey, ..d }.wf()
            &&& PointingDispatcher { request: Request::ReadSlot { slot: 1 }, ..d }.wf()
            &&& PointingDispatcher { request: Request::ReadSlot { slot: 2 }, ..d }.wf()
        },
        d.wf() ==> d.cpi_step < 7 && d.scroll_step < 7,
        d.wf() && !d.booted ==> d.request == (Request::Wait { millis: 500 }) || d.request == (
        Request::ReadSlot { slot: 1 }),
{
}

/// Any outcome of a request is a reply to it, and to no other kind of request.
pub proof fn law_every_outcome_is_a_reply(
    millis: u64,
    slot: u8,
    snapshot: PointingSettingsSnapshot,
    reply: Reply,
)
    ensures
        reply.answers(Request::Wait { millis }) <==> reply is Waited,
        reply.answers(Request::ReadSlot { slot }) <==> reply is SlotRead,
        reply.answers(Request::WriteSlot { slot, snapshot }) <==> reply is SlotWritten,
        reply.answers(Request::ReceiveKey) <==> reply is Key,
{
}

/// The CPI step never changes without an order to the sensor, and every order
/// puts the trackball sensor at the step that is then active.
pub proof fn law_orders_follow_the_cpi_step(
    keys: UserKeyIds,
    d: PointingDispatcher,
    runtime: PointingRuntimeState,
    reply: Reply,
)
    requires
        d.wf(),
    ensures
        ({
            let after = d.after_reply(keys, runtime, reply);
            &&& after.dispatcher.cpi_step != d.cpi_step ==> after.publish is Some
            &&& after.publish matches Some(order) ==> {
                &&& after.dispatcher.cpi_step < 7
                &&& order.device_id == 0
                &&& order.cpi == CPI_STEPS@[after.dispatcher.cpi_step as int]
            }
        }),
{
}

/// A CPI key moves the CPI step by one in its direction, and publishes it. At the
/// end of the table it does nothing. No other setting changes.
pub proof fn law_cpi_key(
    keys: UserKeyIds,
    d: PointingDispatcher,
    runtime: PointingRuntimeState,
    id: u8,
    pressed: bool,
)
    requires
        d.cpi_step < 7,
    ensures
        ({
            let after = d.after_reply(keys, runtime, Reply::Key { id, pressed });
            let up = keys.meaning(id, pressed) == Some(UserCommand::CpiUp);
            let down = keys.meaning(id, pressed) == Some(UserCommand::CpiDown);
            &&& up && d.cpi_step < 6 ==> after.dispatcher.cpi_step == d.cpi_step + 1
            &&& up && d.cpi_step == 6 ==> after.dispatcher.cpi_step == 6
            &&& down && d.cpi_step > 0 ==> after.dispatcher.cpi_step == d.cpi_step - 1
            &&& down && d.cpi_step == 0 ==> after.dispatcher.cpi_step == 0
            &&& up || down ==> {
                &&& after.publish is Some <==> after.dispatcher.cpi_step != d.cpi_step
                &&& after.publish matches Some(order) ==> order.device_id == 0 && order.cpi
                    == CPI_STEPS@[after.dispatcher.cpi_step as int]
                &&& after.dispatcher.scroll_step == d.scroll_step
                &&& after.dispatcher.snipe_saved_step == d.snipe_saved_step
                &&& after.dispatcher.booted == d.booted
                &&& after.dispatcher.request == d.request
                &&& after.runtime == runtime
            }
        }),
{
}

/// A scroll speed key moves the scroll step by one, towards the smaller divisors
/// for more speed, and sets the divisor of the new step. At the end of the table
/// it does nothing. No other setting changes, and nothing is published.
pub proof fn law_scroll_speed_key(
    keys: UserKeyIds,
    d: PointingDispatcher,
    runtime: PointingRuntimeState,
    id: u8,
    pressed: bool,
)
    requires
        d.scroll_step < 7,
    ensures
        ({
            let after = d.after_reply(keys, runtime, Reply::Key { id, pressed });
            let faster = keys.meaning(id, pressed) == Some(UserCommand::ScrollSpeedUp);
            let slower = keys.meaning(id, pressed) == Some(UserCommand::ScrollSpeedDown);
            &&& faster && d.scroll_step > 0 ==> after.dispatcher.scroll_step == d.scroll_step - 1
            &&& faster && d.scroll_step == 0 ==> after.dispatcher.scroll_step == 0
            &&& slower && d.scroll_step < 6 ==> after.dispatcher.scroll_step == d.scroll_step + 1
            &&& slower && d.scroll_step == 6 ==> after.dispatcher.scroll_step == 6
            &&& faster || slower ==> {
                &&& after.runtime.scroll_divisor == if after.dispatcher.scroll_step
                    == d.scroll_step {
                    runtime.scroll_divisor
                } else {
                    SCROLL_DIVISOR_STEPS@[after.dispatcher.scroll_step as int]
                }
                &&& after.runtime.cursor_enabled == runtime.cursor_enabled
                &&& after.runtime.scroll_invert_wheel == runtime.scroll_invert_wheel
                &&& after.runtime.scroll_invert_pan == runtime.scroll_invert_pan
                &&& after.publish is None
                &&& after.dispatcher.cpi_step == d.cpi_step
                &&& after.dispatcher.snipe_saved_step == d.snipe_saved_step
                &&& after.dispatcher.booted == d.booted
                &&& after.dispatcher.request == d.request
            }
        }),
{
}

/// Pressing the snipe key remembers the active CPI step and goes to the lowest;
/// releasing it goes to the remembered step and forgets it. A press while one is
/// remembered, and a release while none is, do nothing. No other setting changes.
pub proof fn law_snipe_key(
    keys: UserKeyIds,
    d: PointingDispatcher,
    runtime: PointingRuntimeState,
    id: u8,
    pressed: bool,
)
    ensures
        ({
            let after = d.after_reply(keys, runtime, Reply::Key { id, pressed });
            let press = keys.meaning(id, pressed) == Some(UserCommand::SnipePress);
            let release = keys.meaning(id, pressed) == Some(UserCommand::SnipeRelease);
            &&& press && d.snipe_saved_step is None ==> {
                &&& after.dispatcher.cpi_step == 0
                &&& after.dispatcher.snipe_saved_step == Some(d.cpi_step)
                &&& after.publish matches Some(order) && order.device_id == 0 && order.cpi == 400
            }
            &&& release && d.snipe_saved_step is Some ==> {
                &&& d.snipe_saved_step == Some(after.dispatcher.cpi_step)
                &&& after.dispatcher.snipe_saved_step is None
                &&& after.publish matches Some(order) && order.device_id == 0 && order.cpi
                    == CPI_STEPS@[after.dispatcher.cpi_step as int]
            }
            &&& (press && d.snipe_saved_step is Some) || (release && d.snipe_saved_step is None)
                ==> after.dispatcher == d && after.publish is None
            &&& press || release ==> {
                &&& after.runtime == runtime
                &&& after.dispatcher.scroll_step == d.scroll_step
                &&& after.dispatcher.booted == d.booted
                &&& after.dispatcher.request == d.request
            }
        }),
{
}

/// A toggle key flips its own setting, whichever way it was, and touches nothing
/// else: X is the pan, Y the wheel.
pub proof fn law_toggle_key(
    keys: UserKeyIds,
    d: PointingDispatcher,
    runtime: PointingRuntimeState,
    id: u8,
    pressed: bool,
)
    ensures
        ({
            let after = d.after_reply(keys, runtime, Reply::Key { id, pressed });
            let cursor = keys.meaning(id, pressed) == Some(UserCommand::CursorToggle);
            let pan = keys.meaning(id, pressed) == Some(UserCommand::ScrollInvertX);
            let wheel = keys.meaning(id, pressed) == Some(UserCommand::ScrollInvertY);
            cursor || pan || wheel ==> {
                &&& cursor <==> after.runtime.cursor_enabled != runtime.cursor_enabled
                &&& pan <==> after.runtime.scroll_invert_pan != runtime.scroll_invert_pan
                &&& wheel <==> after.runtime.scroll_invert_wheel != runtime.scroll_invert_wheel
                &&& after.runtime.scroll_divisor == runtime.scroll_divisor
                &&& after.dispatcher == d
                &&& after.publish is None
            }
        }),
{
}

/// A save key asks for its slot to be written with every setting as it is at that
/// moment. It changes no setting and publishes nothing.
pub proof fn law_save_key(
    keys: UserKeyIds,
    d: PointingDispatcher,
    runtime: PointingRuntimeState,
    id: u8,
    pressed: bool,
    slot: u8,
)
    requires
        keys.meaning(id, pressed) == Some(UserCommand::SaveSlot { slot }),
    ensures
        ({
            let after = d.after_reply(keys, runtime, Reply::Key { id, pressed });
            &&& after.dispatcher.request matches Request::WriteSlot { slot: target, snapshot }
            &&& target == slot
            &&& snapshot.cpi_step == d.cpi_step
            &&& snapshot.scroll_step == d.scroll_step
            &&& snapshot.cursor_enabled == runtime.cursor_enabled
            &&& snapshot.scroll_invert_wheel == runtime.scroll_invert_wheel
            &&& snapshot.scroll_invert_pan == runtime.scroll_invert_pan
            &&& after.dispatcher.cpi_step == d.cpi_step
            &&& after.dispatcher.scroll_step == d.scroll_step
            &&& after.dispatcher.snipe_saved_step == d.snipe_saved_step
            &&& after.dispatcher.booted == d.booted
            &&& after.runtime == runtime
            &&& after.publish is None
        }),
{
}

/// A load key asks for its slot to be read. It changes no setting and publishes
/// nothing.
pub proof fn law_load_key(
    keys: UserKeyIds,
    d: PointingDispatcher,
    runtime: PointingRuntimeState,
    id: u8,
    pressed: bool,
    slot: u8,
)
    requires
        keys.meaning(id, pressed) == Some(UserCommand::LoadSlot { slot }),
    ensures
        ({
            let after = d.after_reply(keys, runtime, Reply::Key { id, pressed });
            &&& after.dispatcher.request == (Request::ReadSlot { slot })
            &&& after.dispatcher.cpi_step == d.cpi_step
            &&& after.dispatcher.scroll_step == d.scroll_step
            &&& after.dispatcher.snipe_saved_step == d.snipe_saved_step
            &&& after.dispatcher.booted == d.booted
            &&& after.runtime == runtime
            &&& after.publish is None
        }),
{
}

/// A key event that asks for nothing does nothing.
pub proof fn law_idle_key(
    keys: UserKeyIds,
    d: PointingDispatcher,
    runtime: PointingRuntimeState,
    id: u8,
    pressed: bool,
)
    requires
        keys.meaning(id, pressed) is None,
    ensures
        ({
            let after = d.after_reply(keys, runtime, Reply::Key { id, pressed });
            after.dispatcher == d && after.runtime == runtime && after.publish is None
        }),
{
}

/// Whatever a slot is found to hold, reading it ends start-up, goes on to the
/// keys, and leaves the remembered snipe step alone.
pub proof fn law_reading_keeps_the_snipe_step(
    keys: UserKeyIds,
    d: PointingDispatcher,
    runtime: PointingRuntimeState,
    read: Option<PointingSettingsSnapshot>,
)
    ensures
        ({
            let after = d.after_reply(keys, runtime, Reply::SlotRead { snapshot: read });
            &&& after.dispatcher.snipe_saved_step == d.snipe_saved_step
            &&& after.dispatcher.booted
            &&& after.dispatcher.request == Request::ReceiveKey
        }),
{
}

/// A slot whose steps are both below seven replaces every setting by its own,
/// whatever was in force before, and its CPI step is published.
pub proof fn law_reading_a_good_slot(
    keys: UserKeyIds,
    d: PointingDispatcher,
    runtime: PointingRuntimeState,
    slot: PointingSettingsSnapshot,
)
    requires
        slot.cpi_step < 7,
        slot.scroll_step < 7,
    ensures
        ({
            let after = d.after_reply(keys, runtime, Reply::SlotRead { snapshot: Some(slot) });
            &&& after.dispatcher.cpi_step == slot.cpi_step
            &&& after.dispatcher.scroll_step == slot.scroll_step
            &&& after.runtime.cursor_enabled == slot.cursor_enabled
            &&& after.runtime.scroll_invert_wheel == slot.scroll_invert_wheel
            &&& after.runtime.scroll_invert_pan == slot.scroll_invert_pan
            &&& after.runtime.scroll_divisor == SCROLL_DIVISOR_STEPS@[slot.scroll_step as int]
            &&& after.publish matches Some(order) && order.device_id == 0 && order.cpi
                == CPI_STEPS@[slot.cpi_step as int]
        }),
{
}

/// A slot that is empty, or has a step that is not below seven, changes no
/// setting. At start-up the active CPI step is published, later nothing is.
pub proof fn law_reading_a_bad_slot(
    keys: UserKeyIds,
    d: PointingDispatcher,
    runtime: PointingRuntimeState,
    read: Option<PointingSettingsSnapshot>,
)
    requires
        read matches Some(slot) ==> slot.cpi_step >= 7 || slot.scroll_step >= 7,
    ensures
        ({
            let after = d.after_reply(keys, runtime, Reply::SlotRead { snapshot: read });
            &&& after.dispatcher.cpi_step == d.cpi_step
            &&& after.dispatcher.scroll_step == d.scroll_step
            &&& after.runtime == runtime
            &&& after.publish == if d.booted {
                None
            } else {
                Some(PointingSetCpiEvent { device_id: 0, cpi: CPI_STEPS@[d.cpi_step as int] })
            }
        }),
{
}

/// When the time to settle has passed slot 1 is read, and when a slot has been
/// written, or could not be, the keys come next. Neither changes a setting or
/// publishes anything.
pub proof fn law_waiting_and_writing_change_no_setting(
    keys: UserKeyIds,
    d: PointingDispatcher,
    runtime: PointingRuntimeState,
    reply: Reply,
)
    requires
        reply is Waited || reply is SlotWritten,
    ensures
        ({
            let after = d.after_reply(keys, runtime, reply);
            &&& reply is Waited ==> after.dispatcher.request == (Request::ReadSlot { slot: 1 })
            &&& reply is SlotWritten ==> after.dispatcher.request == Request::ReceiveKey
            &&& after.dispatcher.cpi_step == d.cpi_step
            &&& after.dispatcher.scroll_step == d.scroll_step
            &&& after.dispatcher.snipe_saved_step == d.snipe_saved_step
            &&& after.dispatcher.booted == d.booted
            &&& after.runtime == runtime
            &&& after.publish is None
        }),
{
}

} // verus!
