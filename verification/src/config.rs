//! What is fixed when the controller starts.

use vstd::prelude::*;

verus! {

/// The marker id that the vehicle carries unless configured otherwise.
pub const VEHICLE_MARKER_ID: i32 = 9;

/// The heading error, in microradians, up to which the vehicle drives
/// forward instead of turning, unless configured otherwise.
pub const ANGLE_OK: i32 = 500_000;

/// The sign that turn speeds are given, to make up for the way the vehicle
/// is mounted or wired. The search spin has the speed `SEARCH_SPEED` times
/// the sign; a turn that reduces a positive heading error has `TURN_SPEED`
/// times the opposite sign, and one that reduces any other error
/// `TURN_SPEED` times the sign.
#[derive(Clone, Copy, Debug, PartialEq, Eq, Structural)]
pub enum Polarity {
    /// The sign is 1.
    Direct,
    /// The sign is -1.
    Reversed,
}

/// The edge of its marker that faces the way the vehicle drives. The
/// marker's heading is the direction from its centre to the middle of this
/// edge.
#[derive(Clone, Copy, Debug, PartialEq, Eq, Structural)]
pub enum ForwardEdge {
    /// The edge between the first and the second corner.
    Top,
    /// The edge between the second and the third corner.
    Right,
    /// The edge between the third and the fourth corner.
    Bottom,
    /// The edge between the fourth and the first corner.
    Left,
}

impl Polarity {
    /// The factor that a turn speed is multiplied with: 1 or -1.
    pub open spec fn sign(self) -> int {
        match self {
            Polarity::Direct => 1,
            Polarity::Reversed => -1,
        }
    }

    /// `speed` times the sign.
    pub fn oriented(self, speed: i32) -> (r: i32)
        requires
            speed > i32::MIN,
        ensures
            r == self.sign() * speed,
    {
        match self {
            Polarity::Direct => speed,
            Polarity::Reversed => -speed,
        }
    }
}

/// The controller's settings. They are read, never changed.
#[derive(Clone, Copy, Debug, PartialEq, Eq, Structural)]
pub struct Config {
    /// The id of the marker on the vehicle.
    pub vehicle_id: i32,
    /// The heading error, in microradians, beyond which the vehicle turns in place.
    pub angle_tolerance: i32,
    /// The sign that turn speeds are given.
    pub polarity: Polarity,
    /// The edge of the vehicle's marker that faces forward.
    pub forward_edge: ForwardEdge,
}

impl Default for Config {
    fn default() -> (config: Config)
        ensures
            config == (Config {
                vehicle_id: VEHICLE_MARKER_ID,
                angle_tolerance: ANGLE_OK,
                polarity: Polarity::Reversed,
                forward_edge: ForwardEdge::Top,
            }),
    {
        Config {
            vehicle_id: VEHICLE_MARKER_ID,
            angle_tolerance: ANGLE_OK,
            polarity: Polarity::Reversed,
            forward_edge: ForwardEdge::Top,
        }
    }
}

} // verus!
