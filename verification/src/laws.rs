//! What holds of the dispatcher over whole runs, and of its keys together.

use vstd::prelude::*;

use crate::dispatcher::{PointingDispatcher, Reply, Request, BOOT_SLOT, SETTLE_MILLIS};
use crate::keys::{UserCommand, UserKeyIds};
use crate::settings::{PointingRuntimeState, PointingSettingsSnapshot};
use crate::steps::PointingSetCpiEvent;
use crate::steps::{CPI_STEPS, DEFAULT_CPI_STEP, DEFAULT_SCROLL_STEP, SCROLL_DIVISOR_STEPS};

verus! {

/// The dispatcher together with what it acts on: the runtime settings, and the
/// order that the sensor was given last.
pub struct World {
    pub dispatcher: PointingDispatcher,
    pub runtime: PointingRuntimeState,
    pub sensor: Option<PointingSetCpiEvent>,
}

impl World {
    /// Power has just come on; the sensor has had no order from the dispatcher.
    pub open spec fn at_power_on() -> World {
        World {
            dispatcher: PointingDispatcher::at_power_on(),
            runtime: PointingRuntimeState::at_power_on(),
            sensor: None,
        }
    }

    /// One reply is handled, and what it asks to publish is published.
    pub open spec fn next(self, keys: UserKeyIds, reply: Reply) -> World {
        let outcome = self.dispatcher.after_reply(keys, self.runtime, reply);
        World {
            dispatcher: outcome.dispatcher,
            runtime: outcome.runtime,
            sensor: if outcome.publish is Some { outcome.publish } else { self.sensor },
        }
    }

    /// The replies are handled one after the other.
    pub open spec fn run(self, keys: UserKeyIds, replies: Seq<Reply>) -> World
        decreases replies.len(),
    {
        if replies.len() == 0 {
            self
        } else {
            self.run(keys, replies.drop_last()).next(keys, replies.last())
        }
    }

    /// Each of the replies answers what the dispatcher waits for by then.
    pub open spec fn can_run(self, keys: UserKeyIds, replies: Seq<Reply>) -> bool {
        forall|i: int|
            0 <= i < replies.len() ==> (#[trigger] replies[i]).answers(
                self.run(keys, replies.take(i)).dispatcher.request,
            )
    }

    /// The settings agree with each other: the scroll divisor in force is that
    /// of the active scroll step and, once start-up is over, the sensor runs at
    /// the active CPI step.
    pub open spec fn consistent(self) -> bool {
        &&& self.dispatcher.wf()
        &&& self.runtime.scroll_divisor == crate::steps::divisor(self.dispatcher.scroll_step)
        &&& self.dispatcher.booted ==> self.sensor == Some(
            crate::steps::cpi_event(self.dispatcher.cpi_step),
        )
    }
}

/// What a reply asks for, if it is a key event.
pub open spec fn asked(keys: UserKeyIds, reply: Reply) -> Option<UserCommand> {
    match reply {
        Reply::Key { id, pressed } => keys.meaning(id, pressed),
        _ => None,
    }
}

/// The settings agree with each other at power-on.
pub proof fn law_power_on_is_consistent()
    ensures
        World::at_power_on().consistent(),
{
}

/// Whatever reply comes, it leaves settings that agree with each other.
pub proof fn law_consistency_is_kept(keys: UserKeyIds, world: World, reply: Reply)
    requires
        world.consistent(),
        reply.answers(world.dispatcher.request),
    ensures
        world.next(keys, reply).consistent(),
{
}

/// The settings agree with each other in every state that the firmware can
/// come to, whatever keys are pressed and whatever the slots hold.
pub proof fn law_always_consistent(keys: UserKeyIds, replies: Seq<Reply>)
    requires
        World::at_power_on().can_run(keys, replies),
    ensures
        World::at_power_on().run(keys, replies).consistent(),
{
    lemma_run_consistent(keys, World::at_power_on(), replies);
}

/// A run that starts from settings that agree ends with settings that agree.
proof fn lemma_run_consistent(keys: UserKeyIds, world: World, replies: Seq<Reply>)
    requires
        world.consistent(),
        world.can_run(keys, replies),
    ensures
        world.run(keys, replies).consistent(),
    decreases replies.len(),
{
    if replies.len() > 0 {
        let before = replies.drop_last();
        lemma_can_run_prefix(keys, world, replies);
        lemma_run_consistent(keys, world, before);
        assert(replies.take(replies.len() - 1) =~= before);
        assert(replies[replies.len() - 1].answers(world.run(keys, before).dispatcher.request));
        law_consistency_is_kept(keys, world.run(keys, before), replies.last());
    }
}

/// All but the last of the replies can be handled too.
proof fn lemma_can_run_prefix(keys: UserKeyIds, world: World, replies: Seq<Reply>)
    requires
        replies.len() > 0,
        world.can_run(keys, replies),
    ensures
        world.can_run(keys, replies.drop_last()),
{
    let before = replies.drop_last();
    assert forall|i: int| 0 <= i < before.len() implies (#[trigger] before[i]).answers(
        world.run(keys, before.take(i)).dispatcher.request,
    ) by {
        assert(before.take(i) =~= replies.take(i));
        assert(replies[i].answers(world.run(keys, replies.take(i)).dispatcher.request));
    }
}

/// Start-up waits for the pointing device to settle, reads the boot slot, and
/// ends with a CPI order and no snipe held. The slot's settings are in force if it holds a
/// snapshot that is in range; the defaults are otherwise.
pub proof fn law_start_up(keys: UserKeyIds, read: Option<PointingSettingsSnapshot>)
    ensures
        ({
            let start = World::at_power_on();
            let settled = start.next(keys, Reply::Waited);
            let up = settled.next(keys, Reply::SlotRead { snapshot: read });
            &&& start.dispatcher.request == (Request::Wait { millis: SETTLE_MILLIS })
            &&& settled.dispatcher.request == (Request::ReadSlot { slot: BOOT_SLOT })
            &&& settled.sensor is None
            &&& up.dispatcher.request == Request::ReceiveKey
            &&& up.dispatcher.booted
            &&& up.dispatcher.snipe_saved_step is None
            &&& up.sensor == Some(crate::steps::cpi_event(up.dispatcher.cpi_step))
            &&& match crate::settings::usable(read) {
                Some(snapshot) => {
                    &&& up.dispatcher.cpi_step == snapshot.cpi_step
                    &&& up.dispatcher.scroll_step == snapshot.scroll_step
                    &&& up.runtime == snapshot.runtime()
                },
                None => {
                    &&& up.dispatcher.cpi_step == DEFAULT_CPI_STEP
                    &&& up.dispatcher.scroll_step == DEFAULT_SCROLL_STEP
                    &&& up.runtime == PointingRuntimeState::at_power_on()
                },
            }
        }),
{
}

/// A save key writes a snapshot of the settings in force to its slot and
/// leaves them as they are, whether or not the slot can be written. Loading
/// that snapshot, at whatever later time, brings all of them back.
pub proof fn law_load_brings_back_what_save_wrote(
    keys: UserKeyIds,
    saved: World,
    save_key: Reply,
    slot: u8,
    written: bool,
    later: World,
)
    requires
        saved.consistent(),
        saved.dispatcher.request == Request::ReceiveKey,
        save_key.answers(saved.dispatcher.request),
        asked(keys, save_key) == Some(UserCommand::SaveSlot { slot }),
        later.consistent(),
        later.dispatcher.request is ReadSlot,
    ensures
        ({
            let saving = saved.next(keys, save_key);
            &&& saving.dispatcher.request matches Request::WriteSlot { slot: s, snapshot }
            &&& s == slot
            &&& snapshot.in_range()
            &&& saving.next(keys, Reply::SlotWritten { ok: written }) == saved
            &&& {
                let loaded = later.next(keys, Reply::SlotRead { snapshot: Some(snapshot) });
                &&& loaded.dispatcher.cpi_step == saved.dispatcher.cpi_step
                &&& loaded.dispatcher.scroll_step == saved.dispatcher.scroll_step
                &&& loaded.runtime == saved.runtime
                &&& loaded.sensor == saved.sensor
                &&& loaded.dispatcher.snipe_saved_step == later.dispatcher.snipe_saved_step
            }
        }),
{
}

/// A load key asks for its slot and changes nothing by itself. Where the slot
/// is empty, or holds a step that is out of range, all stays as it was.
pub proof fn law_useless_slot_changes_nothing(
    keys: UserKeyIds,
    world: World,
    load_key: Reply,
    slot: u8,
    read: Option<PointingSettingsSnapshot>,
)
    requires
        world.consistent(),
        world.dispatcher.request == Request::ReceiveKey,
        load_key.answers(world.dispatcher.request),
        asked(keys, load_key) == Some(UserCommand::LoadSlot { slot }),
        crate::settings::usable(read) is None,
    ensures
        world.next(keys, load_key).dispatcher.request == (Request::ReadSlot { slot }),
        world.next(keys, load_key).next(keys, Reply::SlotRead { snapshot: read }) == world,
{
}

/// The snipe key drops to the lowest CPI step, and its release goes back to the
/// step that was active when it was pressed, whatever other keys were pressed
/// and whatever slots were saved or loaded while it was held.
pub proof fn law_snipe_restores(
    keys: UserKeyIds,
    world: World,
    press: Reply,
    held: Seq<Reply>,
    release: Reply,
)
    requires
        world.consistent(),
        world.dispatcher.snipe_saved_step is None,
        press.answers(world.dispatcher.request),
        asked(keys, press) == Some(UserCommand::SnipePress),
        world.next(keys, press).can_run(keys, held),
        forall|i: int|
            0 <= i < held.len() ==> asked(keys, #[trigger] held[i]) != Some(
                UserCommand::SnipeRelease,
            ),
        release.answers(world.next(keys, press).run(keys, held).dispatcher.request),
        asked(keys, release) == Some(UserCommand::SnipeRelease),
    ensures
        ({
            let pressed = world.next(keys, press);
            let released = pressed.run(keys, held).next(keys, release);
            &&& pressed.dispatcher.cpi_step == 0
            &&& pressed.sensor == Some(crate::steps::cpi_event(0))
            &&& released.dispatcher.cpi_step == world.dispatcher.cpi_step
            &&& released.sensor == world.sensor
            &&& released.dispatcher.snipe_saved_step is None
        }),
{
    let pressed = world.next(keys, press);
    law_consistency_is_kept(keys, world, press);
    lemma_run_consistent(keys, pressed, held);
    lemma_held_snipe_keeps_step(keys, pressed, held);
}

/// Without a release of the snipe key, the step to go back to stays.
proof fn lemma_held_snipe_keeps_step(keys: UserKeyIds, world: World, held: Seq<Reply>)
    requires
        world.dispatcher.snipe_saved_step is Some,
        world.can_run(keys, held),
        forall|i: int|
            0 <= i < held.len() ==> asked(keys, #[trigger] held[i]) != Some(
                UserCommand::SnipeRelease,
            ),
    ensures
        world.run(keys, held).dispatcher.snipe_saved_step == world.dispatcher.snipe_saved_step,
    decreases held.len(),
{
    if held.len() > 0 {
        let before = held.drop_last();
        lemma_can_run_prefix(keys, world, held);
        assert forall|i: int| 0 <= i < before.len() implies asked(keys, #[trigger] before[i])
            != Some(UserCommand::SnipeRelease) by {
            assert(before[i] == held[i]);
        }
        lemma_held_snipe_keeps_step(keys, world, before);
        assert(asked(keys, held[held.len() - 1]) != Some(UserCommand::SnipeRelease));
    }
}

/// The snipe key is held after these replies: it was pressed, and not released
/// since.
pub open spec fn snipe_held(keys: UserKeyIds, replies: Seq<Reply>) -> bool
    decreases replies.len(),
{
    replies.len() > 0 && match asked(keys, replies.last()) {
        Some(UserCommand::SnipePress) => true,
        Some(UserCommand::SnipeRelease) => false,
        _ => snipe_held(keys, replies.drop_last()),
    }
}

/// There is a step to go back to exactly while the snipe key is held, whatever
/// else happened since power-on.
pub proof fn law_step_to_go_back_to_only_while_held(keys: UserKeyIds, replies: Seq<Reply>)
    ensures
        World::at_power_on().run(keys, replies).dispatcher.snipe_saved_step is Some <==> snipe_held(
            keys,
            replies,
        ),
    decreases replies.len(),
{
    if replies.len() > 0 {
        law_step_to_go_back_to_only_while_held(keys, replies.drop_last());
    }
}

/// A second press of the snipe key, and a release without a press, do nothing.
pub proof fn law_unpaired_snipe_does_nothing(keys: UserKeyIds, world: World, key: Reply)
    requires
        key.answers(world.dispatcher.request),
        world.dispatcher.snipe_saved_step is Some ==> asked(keys, key) == Some(
            UserCommand::SnipePress,
        ),
        world.dispatcher.snipe_saved_step is None ==> asked(keys, key) == Some(
            UserCommand::SnipeRelease,
        ),
    ensures
        world.next(keys, key) == world,
{
}

/// A CPI key undoes the other one, except where the first met the end of the
/// table.
pub proof fn law_cpi_keys_undo_each_other(keys: UserKeyIds, world: World, up: Reply, down: Reply)
    requires
        world.consistent(),
        up.answers(world.dispatcher.request),
        down.answers(world.dispatcher.request),
        asked(keys, up) == Some(UserCommand::CpiUp),
        asked(keys, down) == Some(UserCommand::CpiDown),
    ensures
        world.dispatcher.cpi_step + 1 < CPI_STEPS@.len() ==> world.next(keys, up).next(keys, down)
            == world,
        world.dispatcher.cpi_step + 1 == CPI_STEPS@.len() ==> world.next(keys, up) == world,
        world.dispatcher.cpi_step > 0 ==> world.next(keys, down).next(keys, up) == world,
        world.dispatcher.cpi_step == 0 ==> world.next(keys, down) == world,
{
}

/// A scroll speed key undoes the other one, except where the first met the end
/// of the table.
pub proof fn law_scroll_keys_undo_each_other(
    keys: UserKeyIds,
    world: World,
    up: Reply,
    down: Reply,
)
    requires
        world.consistent(),
        up.answers(world.dispatcher.request),
        down.answers(world.dispatcher.request),
        asked(keys, up) == Some(UserCommand::ScrollSpeedUp),
        asked(keys, down) == Some(UserCommand::ScrollSpeedDown),
    ensures
        world.dispatcher.scroll_step > 0 ==> world.next(keys, up).next(keys, down) == world,
        world.dispatcher.scroll_step == 0 ==> world.next(keys, up) == world,
        world.dispatcher.scroll_step + 1 < SCROLL_DIVISOR_STEPS@.len() ==> world.next(
            keys,
            down,
        ).next(keys, up) == world,
        world.dispatcher.scroll_step + 1 == SCROLL_DIVISOR_STEPS@.len() ==> world.next(keys, down)
            == world,
{
}

/// Raising the CPI makes the sensor strictly finer until its table ends, and
/// raising the scroll speed makes the divisor strictly smaller until its table
/// ends.
pub proof fn law_up_is_faster(keys: UserKeyIds, world: World, key: Reply)
    requires
        world.consistent(),
        world.dispatcher.request == Request::ReceiveKey,
        key.answers(world.dispatcher.request),
    ensures
        asked(keys, key) == Some(UserCommand::CpiUp) && world.dispatcher.cpi_step + 1
            < CPI_STEPS@.len() ==> world.next(keys, key).sensor->0.cpi > world.sensor->0.cpi,
        asked(keys, key) == Some(UserCommand::ScrollSpeedUp) && world.dispatcher.scroll_step > 0
            ==> world.next(keys, key).runtime.scroll_divisor < world.runtime.scroll_divisor,
{
}

/// Each of the toggle keys, pressed twice, leaves all as it was; pressed once,
/// it flips its own setting and no other.
pub proof fn law_toggles(keys: UserKeyIds, world: World, key: Reply)
    requires
        key.answers(world.dispatcher.request),
        ({
            ||| asked(keys, key) == Some(UserCommand::CursorToggle)
            ||| asked(keys, key) == Some(UserCommand::ScrollInvertX)
            ||| asked(keys, key) == Some(UserCommand::ScrollInvertY)
        }),
    ensures
        ({
            let once = world.next(keys, key);
            &&& once.next(keys, key) == world
            &&& once.dispatcher == world.dispatcher
            &&& once.sensor == world.sensor
            &&& once.runtime.scroll_divisor == world.runtime.scroll_divisor
            &&& (once.runtime.cursor_enabled != world.runtime.cursor_enabled) == (asked(keys, key)
                == Some(UserCommand::CursorToggle))
            &&& (once.runtime.scroll_invert_pan != world.runtime.scroll_invert_pan) == (asked(
                keys,
                key,
            ) == Some(UserCommand::ScrollInvertX))
            &&& (once.runtime.scroll_invert_wheel != world.runtime.scroll_invert_wheel) == (asked(
                keys,
                key,
            ) == Some(UserCommand::ScrollInvertY))
        }),
{
}

/// A key event that asks for nothing changes nothing.
pub proof fn law_other_keys_do_nothing(keys: UserKeyIds, world: World, key: Reply)
    requires
        world.dispatcher.request == Request::ReceiveKey,
        key.answers(world.dispatcher.request),
        asked(keys, key) is None,
    ensures
        world.next(keys, key) == world,
{
}

/// The CPI keys and the snipe key leave scrolling and the runtime settings
/// alone, and the scroll and toggle keys leave the sensor alone.
pub proof fn law_keys_keep_to_their_own(keys: UserKeyIds, world: World, key: Reply)
    requires
        key.answers(world.dispatcher.request),
        key is Key,
    ensures
        ({
            let after = world.next(keys, key);
            match asked(keys, key) {
                Some(UserCommand::CpiUp)
                | Some(UserCommand::CpiDown)
                | Some(UserCommand::SnipePress)
                | Some(UserCommand::SnipeRelease) => {
                    &&& after.runtime == world.runtime
                    &&& after.dispatcher.scroll_step == world.dispatcher.scroll_step
                },
                _ => {
                    &&& after.sensor == world.sensor
                    &&& after.dispatcher.cpi_step == world.dispatcher.cpi_step
                    &&& after.dispatcher.snipe_saved_step == world.dispatcher.snipe_saved_step
                },
            }
        }),
{
}

/// The dispatcher is back at its keys after each reply, except that a save or
/// load key has its slot written or read first.
pub proof fn law_back_to_the_keys(keys: UserKeyIds, world: World, reply: Reply)
    requires
        world.dispatcher.wf(),
        world.dispatcher.booted,
        reply.answers(world.dispatcher.request),
    ensures
        match world.next(keys, reply).dispatcher.request {
            Request::ReceiveKey => true,
            Request::ReadSlot { slot } => asked(keys, reply) == Some(UserCommand::LoadSlot { slot }),
            Request::WriteSlot { slot, .. } => asked(keys, reply) == Some(
                UserCommand::SaveSlot { slot },
            ),
            Request::Wait { .. } => false,
        },
{
}

} // verus!
