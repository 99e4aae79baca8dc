use rmk_firmware::settings::{apply_snapshot, load_and_apply, save_current};
use rmk_firmware::settings::{AppliedSnapshot, PointingRuntimeState, PointingSettingsSnapshot};
use rmk_firmware::steps::{scroll_divisor, set_cpi, PointingSetCpiEvent};
use rmk_firmware::steps::{CPI_STEPS, DEFAULT_CPI_STEP, DEFAULT_SCROLL_STEP, SCROLL_DIVISOR_STEPS};

fn snapshot(cpi_step: u8, scroll_step: u8) -> PointingSettingsSnapshot {
    PointingSettingsSnapshot {
        cpi_step,
        scroll_step,
        cursor_enabled: false,
        scroll_invert_wheel: true,
        scroll_invert_pan: false,
    }
}

#[test]
fn cpi_of_each_step() {
    let cpis: Vec<u16> = (0..7).map(|step| set_cpi(step).cpi).collect();
    assert_eq!(cpis, vec![400, 600, 900, 1200, 1600, 2100, 2800]);
    assert_eq!(set_cpi(6), PointingSetCpiEvent { device_id: 0, cpi: 2800 });
}

#[test]
fn divisor_of_each_step() {
    let divisors: Vec<u8> = (0..7).map(scroll_divisor).collect();
    assert_eq!(divisors, vec![8, 12, 18, 24, 36, 54, 72]);
}

#[test]
fn tables_rise_around_their_default() {
    assert!(CPI_STEPS.windows(2).all(|w| w[0] < w[1]));
    assert!(SCROLL_DIVISOR_STEPS.windows(2).all(|w| w[0] < w[1]));
    assert_eq!(DEFAULT_CPI_STEP as usize, CPI_STEPS.len() / 2);
    assert_eq!(DEFAULT_SCROLL_STEP as usize, SCROLL_DIVISOR_STEPS.len() / 2);
}

#[test]
fn power_on_settings() {
    let expected = PointingRuntimeState {
        cursor_enabled: true,
        scroll_divisor: 24,
        scroll_invert_wheel: false,
        scroll_invert_pan: false,
    };
    assert_eq!(PointingRuntimeState::initial(), expected);
}

#[test]
fn snapshot_in_range_is_applied() {
    let mut runtime = PointingRuntimeState::initial();
    let applied = apply_snapshot(&mut runtime, snapshot(6, 0));
    let expected = AppliedSnapshot {
        cpi_step: 6,
        scroll_step: 0,
        publish: PointingSetCpiEvent { device_id: 0, cpi: 2800 },
    };
    assert_eq!(applied, Some(expected));
    assert!(!runtime.cursor_enabled);
    assert_eq!(runtime.scroll_divisor, 8);
    assert!(runtime.scroll_invert_wheel);
    assert!(!runtime.scroll_invert_pan);
}

#[test]
fn snapshot_out_of_range_is_rejected() {
    for bad in [snapshot(7, 0), snapshot(0, 7), snapshot(255, 255)] {
        let mut runtime = PointingRuntimeState::initial();
        assert_eq!(apply_snapshot(&mut runtime, bad), None);
        assert_eq!(runtime, PointingRuntimeState::initial());
    }
}

#[test]
fn load_applies_only_a_usable_snapshot() {
    let mut runtime = PointingRuntimeState::initial();
    assert_eq!(load_and_apply(&mut runtime, None), None);
    assert_eq!(load_and_apply(&mut runtime, Some(snapshot(2, 9))), None);
    assert_eq!(runtime, PointingRuntimeState::initial());
    let applied = load_and_apply(&mut runtime, Some(snapshot(2, 5)));
    assert_eq!(applied.map(|a| (a.cpi_step, a.scroll_step, a.publish.cpi)), Some((2, 5, 900)));
    assert_eq!(runtime.scroll_divisor, 54);
}

#[test]
fn save_takes_a_snapshot_of_the_runtime() {
    let runtime = PointingRuntimeState {
        cursor_enabled: false,
        scroll_divisor: 54,
        scroll_invert_wheel: true,
        scroll_invert_pan: false,
    };
    assert_eq!(save_current(&runtime, 2, 5), snapshot(2, 5));
}

#[test]
fn applying_a_saved_snapshot_restores_the_runtime() {
    let runtime = PointingRuntimeState {
        cursor_enabled: false,
        scroll_divisor: scroll_divisor(1),
        scroll_invert_wheel: false,
        scroll_invert_pan: true,
    };
    let saved = save_current(&runtime, 4, 1);
    let mut later = PointingRuntimeState::initial();
    let applied = apply_snapshot(&mut later, saved).unwrap();
    assert_eq!(later, runtime);
    assert_eq!((applied.cpi_step, applied.scroll_step), (4, 1));
}
