use rmk_firmware::dispatcher::{PointingDispatcher, Reply, Request};
use rmk_firmware::keys::{UserCommand, UserKeyIds};
use rmk_firmware::settings::{PointingRuntimeState, PointingSettingsSnapshot};
use rmk_firmware::steps::PointingSetCpiEvent;

const KEYS: UserKeyIds = UserKeyIds {
    cpi_up: 0,
    cpi_down: 1,
    cursor_toggle: 2,
    snipe: 3,
    scroll_speed_up: 4,
    scroll_speed_down: 5,
    scroll_invert_x: 6,
    scroll_invert_y: 7,
    save_slot_1: 8,
    load_slot_1: 9,
    save_slot_2: 10,
    load_slot_2: 11,
};

/// A dispatcher with what it acts on.
struct Desk {
    dispatcher: PointingDispatcher,
    runtime: PointingRuntimeState,
    published: Vec<u16>,
}

impl Desk {
    fn cold() -> Desk {
        Desk {
            dispatcher: PointingDispatcher::new(),
            runtime: PointingRuntimeState::initial(),
            published: Vec::new(),
        }
    }

    fn booted(read: Option<PointingSettingsSnapshot>) -> Desk {
        let mut desk = Desk::cold();
        desk.reply(Reply::Waited);
        desk.reply(Reply::SlotRead { snapshot: read });
        desk
    }

    fn reply(&mut self, reply: Reply) {
        let publish = self.dispatcher.handle_reply(&KEYS, &mut self.runtime, reply);
        if let Some(event) = publish {
            assert_eq!(event.device_id, 0);
            self.published.push(event.cpi);
        }
    }

    fn press(&mut self, id: u8) {
        self.reply(Reply::Key { id, pressed: true });
    }

    fn release(&mut self, id: u8) {
        self.reply(Reply::Key { id, pressed: false });
    }
}

fn stored() -> PointingSettingsSnapshot {
    PointingSettingsSnapshot {
        cpi_step: 5,
        scroll_step: 1,
        cursor_enabled: false,
        scroll_invert_wheel: true,
        scroll_invert_pan: true,
    }
}

#[test]
fn start_up_waits_then_reads_slot_one() {
    let mut desk = Desk::cold();
    assert_eq!(desk.dispatcher.request, Request::Wait { millis: 500 });
    desk.reply(Reply::Waited);
    assert_eq!(desk.dispatcher.request, Request::ReadSlot { slot: 1 });
    assert!(desk.published.is_empty());
}

#[test]
fn start_up_with_empty_slot_publishes_the_default() {
    let desk = Desk::booted(None);
    assert_eq!(desk.dispatcher.request, Request::ReceiveKey);
    assert_eq!((desk.dispatcher.cpi_step, desk.dispatcher.scroll_step), (3, 3));
    assert_eq!(desk.published, vec![1200]);
    assert_eq!(desk.runtime, PointingRuntimeState::initial());
}

#[test]
fn start_up_with_rejected_slot_publishes_the_default() {
    let desk = Desk::booted(Some(PointingSettingsSnapshot { cpi_step: 7, ..stored() }));
    assert_eq!((desk.dispatcher.cpi_step, desk.dispatcher.scroll_step), (3, 3));
    assert_eq!(desk.published, vec![1200]);
    assert_eq!(desk.runtime, PointingRuntimeState::initial());
}

#[test]
fn start_up_loads_slot_one() {
    let desk = Desk::booted(Some(stored()));
    assert_eq!((desk.dispatcher.cpi_step, desk.dispatcher.scroll_step), (5, 1));
    assert_eq!(desk.published, vec![2100]);
    assert_eq!(desk.runtime.scroll_divisor, 12);
    assert!(!desk.runtime.cursor_enabled);
    assert!(desk.runtime.scroll_invert_wheel && desk.runtime.scroll_invert_pan);
}

#[test]
fn cpi_keys_stop_at_the_ends() {
    let mut desk = Desk::booted(None);
    for _ in 0..5 {
        desk.press(KEYS.cpi_up);
    }
    assert_eq!(desk.dispatcher.cpi_step, 6);
    assert_eq!(desk.published, vec![1200, 1600, 2100, 2800]);
    for _ in 0..8 {
        desk.press(KEYS.cpi_down);
    }
    assert_eq!(desk.dispatcher.cpi_step, 0);
    assert_eq!(desk.published[4..], [2100, 1600, 1200, 900, 600, 400]);
}

#[test]
fn cpi_up_then_down_is_no_change() {
    let mut desk = Desk::booted(None);
    let before = desk.dispatcher;
    desk.press(KEYS.cpi_up);
    assert_ne!(desk.dispatcher, before);
    desk.press(KEYS.cpi_down);
    assert_eq!(desk.dispatcher, before);
    assert_eq!(desk.published.last(), Some(&1200));
}

#[test]
fn scroll_keys_stop_at_the_ends() {
    let mut desk = Desk::booted(None);
    let mut divisors = Vec::new();
    for _ in 0..4 {
        desk.press(KEYS.scroll_speed_up);
        divisors.push(desk.runtime.scroll_divisor);
    }
    assert_eq!(divisors, vec![18, 12, 8, 8]);
    divisors.clear();
    for _ in 0..7 {
        desk.press(KEYS.scroll_speed_down);
        divisors.push(desk.runtime.scroll_divisor);
    }
    assert_eq!(divisors, vec![12, 18, 24, 36, 54, 72, 72]);
    assert_eq!(desk.published, vec![1200]);
}

#[test]
fn toggle_keys_flip_their_own_setting() {
    let mut desk = Desk::booted(None);
    desk.press(KEYS.cursor_toggle);
    assert!(!desk.runtime.cursor_enabled);
    desk.press(KEYS.scroll_invert_x);
    assert!(desk.runtime.scroll_invert_pan && !desk.runtime.scroll_invert_wheel);
    desk.press(KEYS.scroll_invert_y);
    assert!(desk.runtime.scroll_invert_pan && desk.runtime.scroll_invert_wheel);
    desk.press(KEYS.cursor_toggle);
    desk.press(KEYS.scroll_invert_x);
    desk.press(KEYS.scroll_invert_y);
    assert_eq!(desk.runtime, PointingRuntimeState::initial());
}

#[test]
fn snipe_drops_and_restores() {
    let mut desk = Desk::booted(None);
    desk.press(KEYS.snipe);
    assert_eq!(desk.dispatcher.cpi_step, 0);
    desk.release(KEYS.snipe);
    assert_eq!(desk.dispatcher.cpi_step, 3);
    assert_eq!(desk.published, vec![1200, 400, 1200]);
}

#[test]
fn snipe_restores_past_other_keys_and_slots() {
    let mut desk = Desk::booted(None);
    desk.press(KEYS.cpi_up);
    desk.press(KEYS.snipe);
    desk.press(KEYS.cpi_up);
    desk.press(KEYS.snipe);
    desk.press(KEYS.load_slot_2);
    desk.reply(Reply::SlotRead { snapshot: Some(stored()) });
    desk.press(KEYS.cpi_down);
    desk.release(KEYS.snipe);
    assert_eq!(desk.dispatcher.cpi_step, 4);
    assert_eq!(desk.dispatcher.snipe_saved_step, None);
    assert_eq!(desk.published, vec![1200, 1600, 400, 600, 2100, 1600, 1600]);
}

#[test]
fn snipe_at_the_lowest_step_still_publishes() {
    let mut desk = Desk::booted(Some(PointingSettingsSnapshot { cpi_step: 0, ..stored() }));
    desk.press(KEYS.snipe);
    desk.release(KEYS.snipe);
    assert_eq!(desk.published, vec![400, 400, 400]);
}

#[test]
fn unpaired_snipe_events_do_nothing() {
    let mut desk = Desk::booted(None);
    let before = desk.dispatcher;
    desk.release(KEYS.snipe);
    assert_eq!(desk.dispatcher, before);
    desk.press(KEYS.snipe);
    let held = desk.dispatcher;
    desk.press(KEYS.snipe);
    assert_eq!(desk.dispatcher, held);
    assert_eq!(desk.published, vec![1200, 400]);
}

#[test]
fn save_then_load_restores_the_settings() {
    let mut desk = Desk::booted(None);
    desk.press(KEYS.cpi_up);
    desk.press(KEYS.scroll_speed_down);
    desk.press(KEYS.scroll_invert_y);
    let saved = (desk.dispatcher, desk.runtime);
    desk.press(KEYS.save_slot_2);
    let expected = PointingSettingsSnapshot {
        cpi_step: 4,
        scroll_step: 4,
        cursor_enabled: true,
        scroll_invert_wheel: true,
        scroll_invert_pan: false,
    };
    assert_eq!(desk.dispatcher.request, Request::WriteSlot { slot: 2, snapshot: expected });
    desk.reply(Reply::SlotWritten { ok: true });
    assert_eq!((desk.dispatcher, desk.runtime), saved);

    desk.press(KEYS.cpi_down);
    desk.press(KEYS.cpi_down);
    desk.press(KEYS.scroll_speed_up);
    desk.press(KEYS.cursor_toggle);
    desk.press(KEYS.load_slot_2);
    assert_eq!(desk.dispatcher.request, Request::ReadSlot { slot: 2 });
    desk.reply(Reply::SlotRead { snapshot: Some(expected) });
    assert_eq!((desk.dispatcher, desk.runtime), saved);
    assert_eq!(desk.published.last(), Some(&1600));
}

#[test]
fn failed_save_changes_nothing() {
    let mut desk = Desk::booted(None);
    let before = (desk.dispatcher, desk.runtime);
    desk.press(KEYS.save_slot_1);
    assert!(matches!(desk.dispatcher.request, Request::WriteSlot { slot: 1, .. }));
    desk.reply(Reply::SlotWritten { ok: false });
    assert_eq!((desk.dispatcher, desk.runtime), before);
}

#[test]
fn useless_load_changes_nothing() {
    for read in [None, Some(PointingSettingsSnapshot { scroll_step: 7, ..stored() })] {
        let mut desk = Desk::booted(None);
        let before = (desk.dispatcher, desk.runtime);
        desk.press(KEYS.load_slot_1);
        assert_eq!(desk.dispatcher.request, Request::ReadSlot { slot: 1 });
        desk.reply(Reply::SlotRead { snapshot: read });
        assert_eq!((desk.dispatcher, desk.runtime), before);
        assert_eq!(desk.published, vec![1200]);
    }
}

#[test]
fn releases_and_unknown_keys_do_nothing() {
    let mut desk = Desk::booted(None);
    let before = (desk.dispatcher, desk.runtime);
    for id in 0..=255 {
        desk.release(id);
    }
    for id in 12..=255 {
        desk.press(id);
    }
    assert_eq!((desk.dispatcher, desk.runtime), before);
    assert_eq!(desk.published, vec![1200]);
}

#[test]
fn settings_agree_after_any_key() {
    let mut desk = Desk::booted(None);
    let mut seed: u32 = 12345;
    for _ in 0..2000 {
        seed = seed.wrapping_mul(1664525).wrapping_add(1013904223);
        let id = (seed >> 16) as u8 % 13;
        let pressed = seed >> 28 != 0;
        desk.reply(Reply::Key { id, pressed });
        match desk.dispatcher.request {
            Request::ReadSlot { .. } => desk.reply(Reply::SlotRead { snapshot: Some(stored()) }),
            Request::WriteSlot { .. } => desk.reply(Reply::SlotWritten { ok: true }),
            _ => {}
        }
        assert_eq!(desk.dispatcher.request, Request::ReceiveKey);
        let divisors = [8, 12, 18, 24, 36, 54, 72];
        let cpis = [400, 600, 900, 1200, 1600, 2100, 2800];
        let d = desk.dispatcher;
        assert_eq!(desk.runtime.scroll_divisor, divisors[d.scroll_step as usize]);
        assert_eq!(desk.published.last(), Some(&cpis[d.cpi_step as usize]));
    }
}

#[test]
fn published_event_names_the_trackball() {
    let mut desk = Desk::booted(None);
    let event = desk.dispatcher.handle_reply(
        &KEYS,
        &mut desk.runtime,
        Reply::Key { id: KEYS.cpi_down, pressed: true },
    );
    assert_eq!(event, Some(PointingSetCpiEvent { device_id: 0, cpi: 900 }));
}

#[test]
fn each_key_has_its_command() {
    let commands = [
        UserCommand::CpiUp,
        UserCommand::CpiDown,
        UserCommand::CursorToggle,
        UserCommand::SnipePress,
        UserCommand::ScrollSpeedUp,
        UserCommand::ScrollSpeedDown,
        UserCommand::ScrollInvertX,
        UserCommand::ScrollInvertY,
        UserCommand::SaveSlot { slot: 1 },
        UserCommand::LoadSlot { slot: 1 },
        UserCommand::SaveSlot { slot: 2 },
        UserCommand::LoadSlot { slot: 2 },
    ];
    for (id, command) in commands.into_iter().enumerate() {
        assert_eq!(KEYS.command(id as u8, true), Some(command));
    }
    assert_eq!(KEYS.command(12, true), None);
    assert_eq!(KEYS.command(KEYS.snipe, false), Some(UserCommand::SnipeRelease));
    assert_eq!(KEYS.command(KEYS.cpi_up, false), None);
}

#[test]
fn first_of_two_keys_with_one_id_wins() {
    let keys = UserKeyIds { snipe: 0, ..KEYS };
    assert_eq!(keys.command(0, true), Some(UserCommand::CpiUp));
    assert_eq!(keys.command(0, false), Some(UserCommand::SnipeRelease));
    assert_eq!(keys.command(3, true), None);
}
