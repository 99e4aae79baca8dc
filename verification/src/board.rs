//! What differs between the two ways of mounting the trackball sensor.

use vstd::prelude::*;

verus! {

/// How the trackball sensor is set up.
#[derive(Clone, Copy, Debug, PartialEq, Eq)]
pub struct TrackballConfig {
    pub res_cpi: u16,
    pub swap_xy: bool,
    pub invert_x: bool,
    pub invert_y: bool,
}

/// The set-up of the sensor, which may be mounted upside down. It starts at the
/// resolution of the default CPI step.
pub fn trackball_config(rotated_180: bool) -> (config: TrackballConfig)
    ensures
        config.res_cpi == 1200,
        config.res_cpi == crate::steps::cpi_event(crate::steps::DEFAULT_CPI_STEP).cpi,
        config.swap_xy,
        config.invert_x == !rotated_180,
        config.invert_y == rotated_180,
{
    TrackballConfig { res_cpi: 1200, swap_xy: true, invert_x: !rotated_180, invert_y: rotated_180 }
}

/// The two phases of the leg encoder in the order in which the encoder takes
/// them. On a board with the sensor upside down the encoder turns the other
/// way, so its phases change places.
pub fn leg_encoder_phases<P>(rotated_180: bool, a: P, b: P) -> (phases: (P, P))
    ensures
        phases == if rotated_180 {
            (b, a)
        } else {
            (a, b)
        },
{
    if rotated_180 {
        (b, a)
    } else {
        (a, b)
    }
}

} // verus!
