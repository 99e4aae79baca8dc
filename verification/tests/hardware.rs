use rmk_firmware::address::ble_addr;
use rmk_firmware::board::{leg_encoder_phases, trackball_config};
use rmk_firmware::led::{LedAction, ProfileLed};

fn actions(led: &mut ProfileLed) -> Vec<LedAction> {
    let mut done = Vec::new();
    while let Some(action) = led.next_action() {
        done.push(action);
    }
    done
}

fn lit(actions: &[LedAction]) -> usize {
    actions.iter().filter(|a| **a == LedAction::SetLow).count()
}

#[test]
fn profile_zero_is_one_blink() {
    let mut led = ProfileLed::new();
    assert_eq!(led.next_action(), None);
    led.profile_changed(0);
    let expected = vec![
        LedAction::SetLow,
        LedAction::Wait { millis: 150 },
        LedAction::SetHigh,
        LedAction::Wait { millis: 150 },
    ];
    assert_eq!(actions(&mut led), expected);
    assert_eq!(led.next_action(), None);
}

#[test]
fn each_profile_blinks_one_more_than_its_number() {
    let mut led = ProfileLed::new();
    for profile in [1, 2, 0, 254] {
        led.profile_changed(profile);
        let done = actions(&mut led);
        assert_eq!(lit(&done), profile as usize + 1);
        assert_eq!(done.len(), 4 * (profile as usize + 1));
        assert!(done.chunks(4).all(|blink| blink == &done[..4]));
        assert_eq!(led.last_profile, Some(profile));
    }
}

#[test]
fn same_profile_is_not_shown_again() {
    let mut led = ProfileLed::new();
    led.profile_changed(2);
    assert_eq!(lit(&actions(&mut led)), 3);
    led.profile_changed(2);
    assert!(actions(&mut led).is_empty());
    led.profile_changed(1);
    assert_eq!(lit(&actions(&mut led)), 2);
    led.profile_changed(2);
    assert_eq!(lit(&actions(&mut led)), 3);
}

#[test]
fn address_is_made_from_the_device_id() {
    assert_eq!(ble_addr(0x4433_2211, 0x8877_1655), [0x11, 0x22, 0x33, 0x44, 0x55, 0xd6]);
    assert_eq!(ble_addr(0, 0), [0, 0, 0, 0, 0, 0xc0]);
    assert_eq!(ble_addr(u32::MAX, u32::MAX), [0xff; 6]);
}

#[test]
fn address_ignores_what_is_above_its_bits() {
    assert_eq!(ble_addr(7, 0xffff_c012), ble_addr(7, 0x0000_0012));
    assert_ne!(ble_addr(7, 0x2012), ble_addr(7, 0x0012));
    assert_ne!(ble_addr(7, 0x12), ble_addr(8, 0x12));
}

#[test]
fn one_axis_is_inverted() {
    let upright = trackball_config(false);
    assert_eq!((upright.res_cpi, upright.swap_xy), (1200, true));
    assert_eq!((upright.invert_x, upright.invert_y), (true, false));
    let rotated = trackball_config(true);
    assert_eq!((rotated.res_cpi, rotated.swap_xy), (1200, true));
    assert_eq!((rotated.invert_x, rotated.invert_y), (false, true));
}

#[test]
fn leg_encoder_turns_with_the_sensor() {
    assert_eq!(leg_encoder_phases(false, 13, 12), (13, 12));
    assert_eq!(leg_encoder_phases(true, 13, 12), (12, 13));
}
