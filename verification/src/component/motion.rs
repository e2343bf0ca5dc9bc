//! Description of a motion sensor.
use vstd::prelude::*;

verus! {

/// Which sensors a motion component has.
#[derive(Copy, Clone, PartialEq, Eq, Structural)]
pub struct MotionInfo {
    pub has_gyro: bool,
    pub has_accel: bool,
}

impl MotionInfo {
    /// A description with the given sensors.
    pub fn new(has_gyro: bool, has_accel: bool) -> (r: Self)
        ensures
            r.has_gyro == has_gyro,
            r.has_accel == has_accel,
    {
        MotionInfo { has_gyro, has_accel }
    }
}

impl Default for MotionInfo {
    /// Both a gyroscope and an accelerometer.
    fn default() -> (r: Self)
        ensures
            r.has_gyro && r.has_accel,
    {
        MotionInfo { has_gyro: true, has_accel: true }
    }
}

} // verus!
