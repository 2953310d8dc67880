//! Stick deadband configuration.
use vstd::prelude::*;

verus! {

/// Stick deadband configuration.
#[derive(Clone, Copy, Debug, PartialEq, Eq, Structural)]
pub struct RcControlsConfig {
    pub deadband: u8,
    pub yaw_deadband: u8,
    pub yaw_control_reversed: u8,
}

impl Default for RcControlsConfig {
    fn default() -> (r: Self)
        ensures
            r == (RcControlsConfig { deadband: 0, yaw_deadband: 0, yaw_control_reversed: 0 }),
    {
        Self::new()
    }
}

impl RcControlsConfig {
    /// Constructor: every field zero.
    #[must_use]
    pub fn new() -> (r: Self)
        ensures
            r == (RcControlsConfig { deadband: 0, yaw_deadband: 0, yaw_control_reversed: 0 }),
    {
        Self { deadband: 0, yaw_deadband: 0, yaw_control_reversed: 0 }
    }
}

} // verus!
