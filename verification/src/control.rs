//! One tick of the control loop: what the controller makes of the frames
//! of a tick, and what it asks the actuator to do.

use vstd::prelude::*;
use crate::config::Config;
use crate::fusion::{
    fuse, fused_size, fused_vehicle, lemma_size_comes_with_vehicle, Frame, Fused, LandmarkMemory,
};
use crate::oracle::{is_news, target_after, update_target};
use crate::pose::{MarkerObservation, Point, Size};
use crate::quadrant::Quadrant;
use crate::steering::{arrived, has_arrived, DriveCmd};

verus! {

/// The number of ticks in a row that the vehicle may go unseen before the
/// controller starts to search for it.
pub const MISS_LIMIT: u32 = 3;

/// The speed of the spin that searches for the vehicle, in thousandths of
/// full speed.
pub const SEARCH_SPEED: i32 = 450;

/// The pause between two ticks, in milliseconds.
pub const TICK_PERIOD_MS: u64 = 100;

/// What a tick came to. The cases are tried in this order, and the first
/// that applies is the tick's.
#[derive(Clone, Copy, Debug, PartialEq, Eq, Structural)]
pub enum Tick {
    /// No target is set: the frames were not looked at.
    NoTarget,
    /// No frame showed the vehicle. `search` is the search spin, once the
    /// vehicle has gone unseen for more than `MISS_LIMIT` ticks in a row.
    CarMissing { search: Option<DriveCmd> },
    /// The vehicle was seen, but the target's landmark never was: there is
    /// nothing to steer toward, and nothing for the actuator.
    TargetUnresolvable,
    /// The vehicle is at the target: `command` holds it there.
    Arrived { command: DriveCmd },
    /// The vehicle at `position`, in `quadrant`, facing along `heading`, is
    /// to be steered toward `target`.
    Steering { position: Point, heading: i32, target: Point, quadrant: Quadrant },
}

/// What the controller keeps from tick to tick.
#[derive(Clone, Copy, Debug, PartialEq, Eq, Structural)]
pub struct Controller {
    /// The settings, fixed at the start.
    pub config: Config,
    /// Where each landmark was last seen.
    pub memory: LandmarkMemory,
    /// The quadrant that the vehicle is sent to; none before the first assignment.
    pub target: Option<Quadrant>,
    /// How many ticks in a row have not shown the vehicle.
    pub misses: u32,
}

/// The spin that sweeps the vehicle round until a camera sees it.
pub open spec fn search_command(config: Config) -> DriveCmd {
    DriveCmd { speed: (config.polarity.sign() * SEARCH_SPEED) as i32, flip: true }
}

/// The command that keeps the vehicle where it is.
pub open spec fn hold_command() -> DriveCmd {
    DriveCmd { speed: 0, flip: false }
}

/// What a tick comes to once a target is set and the frames are merged:
/// `vehicle` and `size` are what the frames amount to, `centre` is where
/// the target's landmark was last seen, and `misses` counts the ticks in a
/// row, this one included, that have not shown the vehicle.
pub open spec fn judged(
    config: Config,
    vehicle: Option<MarkerObservation>,
    size: Option<Size>,
    centre: Option<Point>,
    misses: u32,
) -> Tick
    recommends
        vehicle.is_some() ==> size.is_some(),
{
    match vehicle {
        None => Tick::CarMissing {
            search: if misses > MISS_LIMIT {
                Some(search_command(config))
            } else {
                None
            },
        },
        Some(seen) => match centre {
            None => Tick::TargetUnresolvable,
            Some(target) => if has_arrived(seen.centroid, target) {
                Tick::Arrived { command: hold_command() }
            } else {
                Tick::Steering {
                    position: seen.centroid,
                    heading: seen.heading,
                    target,
                    quadrant: Quadrant::at(
                        seen.centroid.x as int,
                        seen.centroid.y as int,
                        size.unwrap().width as int,
                        size.unwrap().height as int,
                    ),
                }
            },
        },
    }
}

impl Controller {
    /// The controller after a tick with `frames`. Without a target nothing
    /// changes. With one, the landmarks that the frames show are taken into
    /// the memory, and the count of misses goes up by one if no frame
    /// showed the vehicle, and back to none if one did.
    pub open spec fn next(self, frames: Seq<Frame>) -> Controller {
        match self.target {
            None => self,
            Some(target) => Controller {
                config: self.config,
                memory: self.memory.after(frames),
                target: self.target,
                misses: if fused_vehicle(frames, self.config.vehicle_id, target).is_some() {
                    0
                } else {
                    (self.misses + 1) as u32
                },
            },
        }
    }

    /// What a tick with `frames` comes to.
    pub open spec fn outcome(self, frames: Seq<Frame>) -> Tick {
        match self.target {
            None => Tick::NoTarget,
            Some(target) => judged(
                self.config,
                fused_vehicle(frames, self.config.vehicle_id, target),
                fused_size(frames, target),
                self.next(frames).memory.centre(self.target),
                self.next(frames).misses,
            ),
        }
    }

    /// The controller after the ticks whose frames are in `ticks`, one after the other.
    pub open spec fn after_ticks(self, ticks: Seq<Seq<Frame>>) -> Controller
        decreases ticks.len(),
    {
        if ticks.len() == 0 {
            self
        } else {
            self.after_ticks(ticks.drop_last()).next(ticks.last())
        }
    }

    /// A controller at its start: no landmark known, no target set, no miss counted.
    pub fn new(config: Config) -> (controller: Controller)
        ensures
            controller.config == config,
            controller.target.is_none(),
            controller.misses == 0,
            forall|quadrant: Quadrant| controller.memory.slot(quadrant).is_none(),
    {
        Controller { config, memory: LandmarkMemory::new(), target: None, misses: 0 }
    }

    /// Takes the result of a poll of the assigning service: the quadrant it
    /// gave, or none where the poll failed. A failed poll leaves the target
    /// as it was. Returns whether the target is a new one.
    pub fn assign(&mut self, poll: Option<Quadrant>) -> (news: bool)
        ensures
            final(self).target == target_after(old(self).target, poll),
            news == is_news(old(self).target, poll),
            final(self).config == old(self).config,
            final(self).memory == old(self).memory,
            final(self).misses == old(self).misses,
    {
        update_target(&mut self.target, poll)
    }

    /// The centre of the target's landmark: where the vehicle is to go.
    /// There is none while no target is set, and none while the target's
    /// landmark has never been seen.
    pub fn target_centre(&self) -> (centre: Option<Point>)
        ensures
            centre == self.memory.centre(self.target),
    {
        self.memory.target_centre(self.target)
    }

    /// The spin that searches for the vehicle.
    pub fn search(&self) -> (command: DriveCmd)
        ensures
            command == search_command(self.config),
    {
        DriveCmd { speed: self.config.polarity.oriented(SEARCH_SPEED), flip: true }
    }

    /// Runs one tick on the frames that the cameras gave, in the order of
    /// the cameras' priority; a camera that gave nothing has no frame.
    pub fn tick(&mut self, frames: &Vec<Frame>) -> (tick: Tick)
        requires
            old(self).target.is_some() ==> old(self).misses < u32::MAX,
        ensures
            tick == old(self).outcome(frames@),
            *final(self) == old(self).next(frames@),
    {
        let target: Quadrant = match self.target {
            Some(target) => target,
            None => {
                return Tick::NoTarget;
            },
        };
        let fused: Fused = fuse(frames, self.config.vehicle_id, target, &mut self.memory);
        match fused.vehicle {
            None => {
                self.misses = self.misses + 1;
                if self.misses > MISS_LIMIT {
                    Tick::CarMissing { search: Some(self.search()) }
                } else {
                    Tick::CarMissing { search: None }
                }
            },
            Some(seen) => {
                self.misses = 0;
                match self.target_centre() {
                    None => Tick::TargetUnresolvable,
                    Some(centre) => {
                        if arrived(seen.centroid, centre) {
                            Tick::Arrived { command: DriveCmd { speed: 0, flip: false } }
                        } else {
                            proof {
                                lemma_size_comes_with_vehicle(
                                    frames@,
                                    self.config.vehicle_id,
                                    target,
                                );
                            }
                            let size: Size = fused.size.unwrap();
                            Tick::Steering {
                                position: seen.centroid,
                                heading: seen.heading,
                                target: centre,
                                quadrant: Quadrant::from_pos(
                                    seen.centroid.x,
                                    seen.centroid.y,
                                    size.width,
                                    size.height,
                                ),
                            }
                        }
                    },
                }
            },
        }
    }
}

/// Whether none of the ticks whose frames are in `ticks` shows the vehicle
/// of a controller that is sent to `target`.
pub open spec fn vehicle_unseen(ticks: Seq<Seq<Frame>>, vehicle_id: i32, target: Quadrant) -> bool {
    forall|i: int|
        0 <= i < ticks.len() ==> fused_vehicle(#[trigger] ticks[i], vehicle_id, target).is_none()
}

/// Counting misses: when a controller with a target and no miss counted
/// goes through ticks that do not show the vehicle, it counts them, and
/// the search spin starts with the fourth of them: the first three ask
/// nothing of the actuator, the fourth and each one after it ask for the
/// search spin.
pub proof fn lemma_search_starts_on_fourth_miss(start: Controller, ticks: Seq<Seq<Frame>>)
    requires
        start.target.is_some(),
        start.misses == 0,
        0 < ticks.len() <= u32::MAX,
        vehicle_unseen(ticks, start.config.vehicle_id, start.target.unwrap()),
    ensures
        start.after_ticks(ticks).misses == ticks.len(),
        start.after_ticks(ticks.drop_last()).outcome(ticks.last()) == (Tick::CarMissing {
            search: if ticks.len() >= 4 {
                Some(search_command(start.config))
            } else {
                None
            },
        }),
{
    lemma_misses_are_counted(start, ticks);
}

/// Ticks that do not show the vehicle are counted one by one, and change
/// neither the target nor the settings.
proof fn lemma_misses_are_counted(start: Controller, ticks: Seq<Seq<Frame>>)
    requires
        start.target.is_some(),
        start.misses == 0,
        ticks.len() <= u32::MAX,
        vehicle_unseen(ticks, start.config.vehicle_id, start.target.unwrap()),
    ensures
        start.after_ticks(ticks).misses == ticks.len(),
        start.after_ticks(ticks).target == start.target,
        start.after_ticks(ticks).config == start.config,
    decreases ticks.len(),
{
    if ticks.len() > 0 {
        lemma_misses_are_counted(start, ticks.drop_last());
    }
}

/// A tick that shows the vehicle ends a run of misses: the count starts
/// again from none.
pub proof fn lemma_sighting_resets_misses(controller: Controller, frames: Seq<Frame>)
    requires
        controller.target.is_some(),
        fused_vehicle(frames, controller.config.vehicle_id, controller.target.unwrap()).is_some(),
    ensures
        controller.next(frames).misses == 0,
        !(controller.outcome(frames) is CarMissing),
        !(controller.outcome(frames) is NoTarget),
{
}

} // verus!
