//! The step tables of the pointing device: sensor resolution and scroll divisor.

use vstd::prelude::*;

verus! {

/// Resolution of the sensor at each CPI step, in counts per inch.
pub const CPI_STEPS: [u16; 7] = [400, 600, 900, 1200, 1600, 2100, 2800];

/// How much motion makes one scroll unit at each scroll step.
pub const SCROLL_DIVISOR_STEPS: [u8; 7] = [8, 12, 18, 24, 36, 54, 72];

/// The CPI step in force until a saved one is loaded.
pub const DEFAULT_CPI_STEP: u8 = 3;

/// The scroll step in force until a saved one is loaded.
pub const DEFAULT_SCROLL_STEP: u8 = 3;

/// The trackball sensor's id among the pointing devices.
pub const PMW_DEVICE_ID: u8 = 0;

/// An order to a pointing device to change its resolution.
#[derive(Clone, Copy, Debug, PartialEq, Eq)]
pub struct PointingSetCpiEvent {
    pub device_id: u8,
    pub cpi: u16,
}

/// `step` names an entry of the CPI table.
pub open spec fn is_cpi_step(step: u8) -> bool {
    step < CPI_STEPS@.len()
}

/// `step` names an entry of the scroll divisor table.
pub open spec fn is_scroll_step(step: u8) -> bool {
    step < SCROLL_DIVISOR_STEPS@.len()
}

/// The order that puts the trackball sensor at `step`.
pub open spec fn cpi_event(step: u8) -> PointingSetCpiEvent {
    PointingSetCpiEvent { device_id: PMW_DEVICE_ID, cpi: CPI_STEPS@[step as int] }
}

/// The scroll divisor at `step`.
pub open spec fn divisor(step: u8) -> u8 {
    SCROLL_DIVISOR_STEPS@[step as int]
}

/// The order to publish so that the trackball sensor runs at `step`.
pub fn set_cpi(step: u8) -> (event: PointingSetCpiEvent)
    requires
        is_cpi_step(step),
    ensures
        event == cpi_event(step),
{
    let cpi = CPI_STEPS[step as usize];
    PointingSetCpiEvent { device_id: PMW_DEVICE_ID, cpi }
}

/// The divisor of scroll step `step`.
pub fn scroll_divisor(step: u8) -> (d: u8)
    requires
        is_scroll_step(step),
    ensures
        d == divisor(step),
{
    SCROLL_DIVISOR_STEPS[step as usize]
}

/// Each of the seven CPI steps is an order to the trackball sensor for the
/// resolution that the step stands for, and there are no others.
pub proof fn law_cpi_of_each_step(step: u8)
    ensures
        is_cpi_step(step) <==> step < 7,
        step < 7 ==> cpi_event(step).device_id == 0,
        step == 0 ==> cpi_event(step).cpi == 400,
        step == 1 ==> cpi_event(step).cpi == 600,
        step == 2 ==> cpi_event(step).cpi == 900,
        step == 3 ==> cpi_event(step).cpi == 1200,
        step == 4 ==> cpi_event(step).cpi == 1600,
        step == 5 ==> cpi_event(step).cpi == 2100,
        step == 6 ==> cpi_event(step).cpi == 2800,
{
}

/// Each of the seven scroll steps has the divisor that the step stands for, and
/// there are no others.
pub proof fn law_divisor_of_each_step(step: u8)
    ensures
        is_scroll_step(step) <==> step < 7,
        step == 0 ==> divisor(step) == 8,
        step == 1 ==> divisor(step) == 12,
        step == 2 ==> divisor(step) == 18,
        step == 3 ==> divisor(step) == 24,
        step == 4 ==> divisor(step) == 36,
        step == 5 ==> divisor(step) == 54,
        step == 6 ==> divisor(step) == 72,
{
}

/// A higher CPI step is a strictly finer resolution.
pub proof fn law_cpi_increases(a: u8, b: u8)
    requires
        is_cpi_step(b),
        a < b,
    ensures
        cpi_event(a).cpi < cpi_event(b).cpi,
{
}

/// A higher scroll step has a strictly larger divisor, so it scrolls slower,
/// and no divisor is zero.
pub proof fn law_divisor_increases(a: u8, b: u8)
    requires
        is_scroll_step(b),
        a < b,
    ensures
        0 < divisor(a) < divisor(b),
{
}

/// Each default step is the centre of its table: as many steps lie below it
/// as above it.
pub proof fn law_defaults_are_central()
    ensures
        is_cpi_step(DEFAULT_CPI_STEP),
        DEFAULT_CPI_STEP == CPI_STEPS@.len() - 1 - DEFAULT_CPI_STEP,
        is_scroll_step(DEFAULT_SCROLL_STEP),
        DEFAULT_SCROLL_STEP == SCROLL_DIVISOR_STEPS@.len() - 1 - DEFAULT_SCROLL_STEP,
{
}

} // verus!
