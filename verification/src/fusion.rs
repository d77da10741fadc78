//! Merging what several cameras saw in one tick into a single vehicle pose,
//! and remembering where the four landmark markers were last seen.

use std::collections::HashMap;
use vstd::prelude::*;
use crate::pose::{MarkerObservation, Point, Size};
use crate::quadrant::Quadrant;

verus! {

/// What one camera saw in one tick: the size of its image and the markers
/// detected in it, each under its id.
#[derive(Debug)]
pub struct Frame {
    pub size: Size,
    pub markers: HashMap<i32, MarkerObservation>,
}

/// The last known observation of each quadrant's landmark marker. A slot is
/// filled when its marker is first seen and overwritten whenever it is seen
/// again; it is never emptied.
#[derive(Clone, Copy, Debug, PartialEq, Eq, Structural)]
pub struct LandmarkMemory {
    pub top_left: Option<MarkerObservation>,
    pub top_right: Option<MarkerObservation>,
    pub bottom_left: Option<MarkerObservation>,
    pub bottom_right: Option<MarkerObservation>,
}

/// What a tick's frames amount to: the vehicle's pose, if any frame showed
/// the vehicle, and the size of the image to place it in, if there was any
/// frame.
#[derive(Clone, Copy, Debug, PartialEq, Eq, Structural)]
pub struct Fused {
    pub vehicle: Option<MarkerObservation>,
    pub size: Option<Size>,
}

/// Whether `frame` shows the landmark marker of the quadrant `target`.
pub open spec fn shows_target(frame: Frame, target: Quadrant) -> bool {
    frame.seen(target.marker_id()).is_some()
}

/// What is known of marker `id` after `frames`, if `before` was known of
/// it: its observation in the last frame that shows it, and `before` where
/// none does.
pub open spec fn remembered(
    before: Option<MarkerObservation>,
    frames: Seq<Frame>,
    id: i32,
) -> Option<MarkerObservation>
    decreases frames.len(),
{
    if frames.len() == 0 {
        before
    } else if frames.last().seen(id).is_some() {
        frames.last().seen(id)
    } else {
        remembered(before, frames.drop_last(), id)
    }
}

/// The vehicle as the first of `frames` that shows it has it.
pub open spec fn first_vehicle(frames: Seq<Frame>, vehicle_id: i32) -> Option<MarkerObservation>
    decreases frames.len(),
{
    if frames.len() == 0 {
        None
    } else if first_vehicle(frames.drop_last(), vehicle_id).is_some() {
        first_vehicle(frames.drop_last(), vehicle_id)
    } else {
        frames.last().seen(vehicle_id)
    }
}

/// The vehicle as the last of `frames` has it that shows both the vehicle
/// and the target's landmark.
pub open spec fn vehicle_beside_target(
    frames: Seq<Frame>,
    vehicle_id: i32,
    target: Quadrant,
) -> Option<MarkerObservation>
    decreases frames.len(),
{
    if frames.len() == 0 {
        None
    } else if frames.last().seen(vehicle_id).is_some() && shows_target(frames.last(), target) {
        frames.last().seen(vehicle_id)
    } else {
        vehicle_beside_target(frames.drop_last(), vehicle_id, target)
    }
}

/// The vehicle's pose that `frames`, in the order of their cameras'
/// priority, amount to: that of the last frame that shows the vehicle
/// together with the target's landmark; where there is no such frame, that
/// of the first frame that shows the vehicle; and none where no frame does.
pub open spec fn fused_vehicle(
    frames: Seq<Frame>,
    vehicle_id: i32,
    target: Quadrant,
) -> Option<MarkerObservation> {
    if vehicle_beside_target(frames, vehicle_id, target).is_some() {
        vehicle_beside_target(frames, vehicle_id, target)
    } else {
        first_vehicle(frames, vehicle_id)
    }
}

/// The image size that `frames` amount to: that of the last frame that
/// shows the target's landmark; where there is no such frame, that of the
/// first frame; and none where there is no frame.
pub open spec fn fused_size(frames: Seq<Frame>, target: Quadrant) -> Option<Size>
    decreases frames.len(),
{
    if frames.len() == 0 {
        None
    } else if shows_target(frames.last(), target) || frames.len() == 1 {
        Some(frames.last().size)
    } else {
        fused_size(frames.drop_last(), target)
    }
}

impl Frame {
    /// The observation that this frame holds under `id`, if it holds one.
    pub open spec fn seen(self, id: i32) -> Option<MarkerObservation> {
        if self.markers@.contains_key(id) {
            Some(self.markers@[id])
        } else {
            None
        }
    }

    /// A frame of an image of `size` in which no marker was detected.
    pub fn new(size: Size) -> (frame: Frame)
        ensures
            frame.size == size,
            frame.markers@ == Map::<i32, MarkerObservation>::empty(),
            forall|id: i32| frame.seen(id).is_none(),
    {
        Frame { size, markers: HashMap::new() }
    }

    /// Puts a detected marker into the frame, under its id. Where the frame
    /// holds an observation under that id already, the new one replaces it.
    pub fn insert(&mut self, marker: MarkerObservation)
        ensures
            final(self).size == old(self).size,
            final(self).markers@ == old(self).markers@.insert(marker.id, marker),
            final(self).seen(marker.id) == Some(marker),
            forall|id: i32| id != marker.id ==> final(self).seen(id) == old(self).seen(id),
    {
        self.markers.insert(marker.id, marker);
    }

    /// The observation that this frame holds under `id`, if it holds one.
    pub fn find(&self, id: i32) -> (found: Option<MarkerObservation>)
        ensures
            found == self.seen(id),
    {
        match self.markers.get(&id) {
            Some(marker) => Some(*marker),
            None => None,
        }
    }
}

impl LandmarkMemory {
    /// What is known of the landmark of `quadrant`.
    pub open spec fn slot(self, quadrant: Quadrant) -> Option<MarkerObservation> {
        match quadrant {
            Quadrant::TopLeft => self.top_left,
            Quadrant::TopRight => self.top_right,
            Quadrant::BottomLeft => self.bottom_left,
            Quadrant::BottomRight => self.bottom_right,
        }
    }

    /// The memory after `frames` were seen: each slot holds what is then
    /// known of its quadrant's marker.
    pub open spec fn after(self, frames: Seq<Frame>) -> LandmarkMemory {
        LandmarkMemory {
            top_left: remembered(self.top_left, frames, Quadrant::TopLeft.marker_id()),
            top_right: remembered(self.top_right, frames, Quadrant::TopRight.marker_id()),
            bottom_left: remembered(self.bottom_left, frames, Quadrant::BottomLeft.marker_id()),
            bottom_right: remembered(self.bottom_right, frames, Quadrant::BottomRight.marker_id()),
        }
    }

    /// The centre of the landmark of `target`, if it has ever been seen.
    pub open spec fn centre(self, target: Option<Quadrant>) -> Option<Point> {
        match target {
            Some(quadrant) => match self.slot(quadrant) {
                Some(landmark) => Some(landmark.centroid),
                None => None,
            },
            None => None,
        }
    }

    /// A memory in which no landmark is known.
    pub fn new() -> (memory: LandmarkMemory)
        ensures
            forall|quadrant: Quadrant| memory.slot(quadrant).is_none(),
    {
        LandmarkMemory { top_left: None, top_right: None, bottom_left: None, bottom_right: None }
    }

    /// What is known of the landmark of `quadrant`.
    pub fn get(&self, quadrant: Quadrant) -> (known: Option<MarkerObservation>)
        ensures
            known == self.slot(quadrant),
    {
        match quadrant {
            Quadrant::TopLeft => self.top_left,
            Quadrant::TopRight => self.top_right,
            Quadrant::BottomLeft => self.bottom_left,
            Quadrant::BottomRight => self.bottom_right,
        }
    }

    /// Overwrites what is known of the landmark of `quadrant`.
    pub fn record(&mut self, quadrant: Quadrant, landmark: MarkerObservation)
        ensures
            final(self).slot(quadrant) == Some(landmark),
            forall|other: Quadrant|
                other != quadrant ==> final(self).slot(other) == old(self).slot(other),
    {
        match quadrant {
            Quadrant::TopLeft => {
                self.top_left = Some(landmark);
            },
            Quadrant::TopRight => {
                self.top_right = Some(landmark);
            },
            Quadrant::BottomLeft => {
                self.bottom_left = Some(landmark);
            },
            Quadrant::BottomRight => {
                self.bottom_right = Some(landmark);
            },
        }
    }

    /// The centre of the landmark of `target`: where the vehicle is to go.
    /// There is none while no target is set, and none while the target's
    /// landmark has never been seen.
    pub fn target_centre(&self, target: Option<Quadrant>) -> (centre: Option<Point>)
        ensures
            centre == self.centre(target),
    {
        match target {
            Some(quadrant) => match self.get(quadrant) {
                Some(landmark) => Some(landmark.centroid),
                None => None,
            },
            None => None,
        }
    }

    /// Takes note of the landmark of `quadrant` if `frame` shows it, and
    /// says whether it does.
    fn note(&mut self, frame: &Frame, quadrant: Quadrant) -> (shown: bool)
        ensures
            shown == frame.seen(quadrant.marker_id()).is_some(),
            final(self).slot(quadrant) == (if shown {
                frame.seen(quadrant.marker_id())
            } else {
                old(self).slot(quadrant)
            }),
            forall|other: Quadrant|
                other != quadrant ==> final(self).slot(other) == old(self).slot(other),
    {
        match frame.find(quadrant.landmark_id()) {
            Some(landmark) => {
                self.record(quadrant, landmark);
                true
            },
            None => false,
        }
    }
}

/// Merges the frames of one tick, given in the order of their cameras'
/// priority. Every landmark that a frame shows is taken into `memory`; the
/// vehicle's pose and the image size are those of the first frame, unless a
/// later frame shows the target's landmark: such a frame's size counts, and
/// so does its vehicle if it shows one.
pub fn fuse(
    frames: &Vec<Frame>,
    vehicle_id: i32,
    target: Quadrant,
    memory: &mut LandmarkMemory,
) -> (fused: Fused)
    ensures
        *final(memory) == old(memory).after(frames@),
        fused.vehicle == fused_vehicle(frames@, vehicle_id, target),
        fused.size == fused_size(frames@, target),
{
    let mut vehicle: Option<MarkerObservation> = None;
    let mut size: Option<Size> = None;
    let mut i: usize = 0;
    while i < frames.len()
        invariant
            i <= frames.len(),
            *memory == old(memory).after(frames@.take(i as int)),
            vehicle == fused_vehicle(frames@.take(i as int), vehicle_id, target),
            size == fused_size(frames@.take(i as int), target),
            size.is_none() <==> i == 0,
        decreases frames.len() - i,
    {
        assert(frames@.take(i + 1).drop_last() =~= frames@.take(i as int));
        let frame: &Frame = &frames[i];
        let seen: Option<MarkerObservation> = frame.find(vehicle_id);
        let top_left: bool = memory.note(frame, Quadrant::TopLeft);
        let top_right: bool = memory.note(frame, Quadrant::TopRight);
        let bottom_left: bool = memory.note(frame, Quadrant::BottomLeft);
        let bottom_right: bool = memory.note(frame, Quadrant::BottomRight);
        let found: bool = match target {
            Quadrant::TopLeft => top_left,
            Quadrant::TopRight => top_right,
            Quadrant::BottomLeft => bottom_left,
            Quadrant::BottomRight => bottom_right,
        };
        if vehicle.is_none() || (seen.is_some() && found) {
            vehicle = seen;
        }
        if size.is_none() || found {
            size = Some(frame.size);
        }
        i = i + 1;
    }
    assert(frames@.take(i as int) =~= frames@);
    Fused { vehicle, size }
}

/// A landmark once known stays known: frames overwrite a slot, they never
/// empty it.
pub proof fn lemma_memory_is_kept(before: Option<MarkerObservation>, frames: Seq<Frame>, id: i32)
    requires
        before.is_some(),
    ensures
        remembered(before, frames, id).is_some(),
    decreases frames.len(),
{
    if frames.len() > 0 {
        lemma_memory_is_kept(before, frames.drop_last(), id);
    }
}

/// Whether one of `frames` shows the vehicle.
pub open spec fn vehicle_shown(frames: Seq<Frame>, vehicle_id: i32) -> bool {
    exists|i: int| 0 <= i < frames.len() && (#[trigger] frames[i]).seen(vehicle_id).is_some()
}

/// The frames amount to a vehicle pose if and only if one of them shows
/// the vehicle.
pub proof fn lemma_vehicle_found_iff_shown(frames: Seq<Frame>, vehicle_id: i32, target: Quadrant)
    ensures
        fused_vehicle(frames, vehicle_id, target).is_some() <==> vehicle_shown(frames, vehicle_id),
    decreases frames.len(),
{
    if frames.len() > 0 {
        let front = frames.drop_last();
        lemma_vehicle_found_iff_shown(front, vehicle_id, target);
        if !vehicle_shown(front, vehicle_id) && frames.last().seen(vehicle_id).is_none() {
            assert forall|i: int| 0 <= i < frames.len() implies !(#[trigger] frames[i]).seen(
                vehicle_id,
            ).is_some() by {
                if i < front.len() {
                    assert(frames[i] == front[i]);
                }
            }
        }
    }
}

/// Where the frames amount to a vehicle pose, they amount to an image size too.
pub proof fn lemma_size_comes_with_vehicle(frames: Seq<Frame>, vehicle_id: i32, target: Quadrant)
    requires
        fused_vehicle(frames, vehicle_id, target).is_some(),
    ensures
        fused_size(frames, target).is_some(),
{
    lemma_size_of_any_frame(frames, target);
}

/// The frames amount to an image size if and only if there is a frame.
proof fn lemma_size_of_any_frame(frames: Seq<Frame>, target: Quadrant)
    ensures
        fused_size(frames, target).is_some() <==> frames.len() > 0,
    decreases frames.len(),
{
    if frames.len() > 1 {
        lemma_size_of_any_frame(frames.drop_last(), target);
    }
}

} // verus!
