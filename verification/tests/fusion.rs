use arena_pilot::fusion::{fuse, Frame, Fused, LandmarkMemory};
use arena_pilot::pose::{MarkerObservation, Point, Size};
use arena_pilot::quadrant::Quadrant;

const CAR: i32 = 9;

fn seen(id: i32, x: i32, y: i32, heading: i32) -> MarkerObservation {
    MarkerObservation { id, centroid: Point { x, y }, heading }
}

fn frame(width: i32, height: i32, markers: Vec<MarkerObservation>) -> Frame {
    let mut frame = Frame::new(Size { width, height });
    for marker in markers {
        frame.insert(marker);
    }
    frame
}

fn size(width: i32, height: i32) -> Option<Size> {
    Some(Size { width, height })
}

#[test]
fn new_frame_holds_no_marker() {
    let f = Frame::new(Size { width: 640_000, height: 480_000 });
    assert_eq!(f.size, Size { width: 640_000, height: 480_000 });
    assert!(f.markers.is_empty());
    assert_eq!(f.find(9), None);
}

#[test]
fn insert_puts_a_marker_under_its_id() {
    let mut f = Frame::new(Size { width: 1, height: 1 });
    f.insert(seen(9, 1, 1, 1));
    f.insert(seen(13, 2, 2, 2));
    assert_eq!(f.markers.len(), 2);
    assert_eq!(f.markers.get(&9), Some(&seen(9, 1, 1, 1)));
    assert_eq!(f.markers.get(&13), Some(&seen(13, 2, 2, 2)));
    f.insert(seen(9, 3, 3, 3));
    assert_eq!(f.markers.len(), 2);
    assert_eq!(f.find(9), Some(seen(9, 3, 3, 3)));
    assert_eq!(f.find(13), Some(seen(13, 2, 2, 2)));
    assert_eq!(f.size, Size { width: 1, height: 1 });
}

#[test]
fn find_gives_the_last_observation_of_an_id() {
    let f = frame(640_000, 480_000, vec![seen(9, 1, 1, 1), seen(13, 2, 2, 2), seen(9, 3, 3, 3)]);
    assert_eq!(f.find(9), Some(seen(9, 3, 3, 3)));
    assert_eq!(f.find(13), Some(seen(13, 2, 2, 2)));
    assert_eq!(f.find(11), None);
    assert_eq!(frame(1, 1, vec![]).find(9), None);
}

#[test]
fn memory_starts_empty_and_records_by_quadrant() {
    let mut memory = LandmarkMemory::new();
    for q in [Quadrant::TopLeft, Quadrant::TopRight, Quadrant::BottomLeft, Quadrant::BottomRight] {
        assert_eq!(memory.get(q), None);
        assert_eq!(memory.target_centre(Some(q)), None);
    }
    memory.record(Quadrant::BottomLeft, seen(14, 5, 6, 7));
    assert_eq!(memory.get(Quadrant::BottomLeft), Some(seen(14, 5, 6, 7)));
    assert_eq!(memory.bottom_left, Some(seen(14, 5, 6, 7)));
    assert_eq!(memory.get(Quadrant::TopLeft), None);
    assert_eq!(memory.get(Quadrant::TopRight), None);
    assert_eq!(memory.get(Quadrant::BottomRight), None);
    assert_eq!(memory.target_centre(Some(Quadrant::BottomLeft)), Some(Point { x: 5, y: 6 }));
    assert_eq!(memory.target_centre(Some(Quadrant::TopLeft)), None);
    assert_eq!(memory.target_centre(None), None);
    memory.record(Quadrant::BottomLeft, seen(14, 8, 9, 0));
    assert_eq!(memory.target_centre(Some(Quadrant::BottomLeft)), Some(Point { x: 8, y: 9 }));
}

#[test]
fn no_frames_give_nothing() {
    let mut memory = LandmarkMemory::new();
    memory.record(Quadrant::TopRight, seen(11, 1, 2, 3));
    let before = memory;
    let fused = fuse(&vec![], CAR, Quadrant::TopLeft, &mut memory);
    assert_eq!(fused, Fused { vehicle: None, size: None });
    assert_eq!(memory, before);
}

#[test]
fn single_frame_gives_its_vehicle_and_size() {
    let mut memory = LandmarkMemory::new();
    let frames = vec![frame(640_000, 480_000, vec![seen(9, 100, 200, 300), seen(12, 7, 8, 9)])];
    let fused = fuse(&frames, CAR, Quadrant::TopLeft, &mut memory);
    assert_eq!(fused, Fused { vehicle: Some(seen(9, 100, 200, 300)), size: size(640_000, 480_000) });
    assert_eq!(memory.bottom_right, Some(seen(12, 7, 8, 9)));
    assert_eq!(memory.top_left, None);
    assert_eq!(memory.top_right, None);
    assert_eq!(memory.bottom_left, None);
}

#[test]
fn first_frame_wins_when_no_frame_shows_the_target() {
    let mut memory = LandmarkMemory::new();
    let frames = vec![
        frame(640_000, 480_000, vec![seen(9, 1, 1, 1), seen(11, 4, 4, 4)]),
        frame(800_000, 600_000, vec![seen(9, 2, 2, 2), seen(12, 5, 5, 5)]),
    ];
    let fused = fuse(&frames, CAR, Quadrant::TopLeft, &mut memory);
    assert_eq!(fused, Fused { vehicle: Some(seen(9, 1, 1, 1)), size: size(640_000, 480_000) });
}

#[test]
fn later_frame_with_vehicle_and_target_overrides() {
    let mut memory = LandmarkMemory::new();
    let frames = vec![
        frame(640_000, 480_000, vec![seen(9, 1, 1, 1)]),
        frame(800_000, 600_000, vec![seen(13, 5, 5, 5), seen(9, 2, 2, 2)]),
    ];
    let fused = fuse(&frames, CAR, Quadrant::TopLeft, &mut memory);
    assert_eq!(fused, Fused { vehicle: Some(seen(9, 2, 2, 2)), size: size(800_000, 600_000) });
    assert_eq!(memory.top_left, Some(seen(13, 5, 5, 5)));
}

#[test]
fn later_frame_with_target_but_no_vehicle_overrides_the_size_only() {
    let mut memory = LandmarkMemory::new();
    let frames = vec![
        frame(640_000, 480_000, vec![seen(9, 1, 1, 1)]),
        frame(800_000, 600_000, vec![seen(13, 5, 5, 5)]),
    ];
    let fused = fuse(&frames, CAR, Quadrant::TopLeft, &mut memory);
    assert_eq!(fused, Fused { vehicle: Some(seen(9, 1, 1, 1)), size: size(800_000, 600_000) });
}

#[test]
fn later_frame_supplies_the_vehicle_that_the_first_lacks() {
    let mut memory = LandmarkMemory::new();
    let frames = vec![
        frame(640_000, 480_000, vec![seen(13, 5, 5, 5)]),
        frame(800_000, 600_000, vec![seen(9, 2, 2, 2)]),
    ];
    let fused = fuse(&frames, CAR, Quadrant::TopLeft, &mut memory);
    assert_eq!(fused, Fused { vehicle: Some(seen(9, 2, 2, 2)), size: size(640_000, 480_000) });
    let fused = fuse(&frames, CAR, Quadrant::BottomRight, &mut memory);
    assert_eq!(fused, Fused { vehicle: Some(seen(9, 2, 2, 2)), size: size(640_000, 480_000) });
}

#[test]
fn first_frame_with_vehicle_and_target_yields_to_a_later_one() {
    let mut memory = LandmarkMemory::new();
    let frames = vec![
        frame(100, 100, vec![seen(9, 1, 1, 1), seen(14, 1, 1, 1)]),
        frame(200, 200, vec![seen(9, 2, 2, 2)]),
        frame(300, 300, vec![seen(9, 3, 3, 3), seen(14, 3, 3, 3)]),
        frame(400, 400, vec![seen(9, 4, 4, 4), seen(13, 4, 4, 4)]),
    ];
    let fused = fuse(&frames, CAR, Quadrant::BottomLeft, &mut memory);
    assert_eq!(fused, Fused { vehicle: Some(seen(9, 3, 3, 3)), size: size(300, 300) });
    assert_eq!(memory.bottom_left, Some(seen(14, 3, 3, 3)));
    assert_eq!(memory.top_left, Some(seen(13, 4, 4, 4)));
}

#[test]
fn frames_without_the_vehicle_give_none() {
    let mut memory = LandmarkMemory::new();
    let frames = vec![
        frame(640_000, 480_000, vec![seen(13, 1, 1, 1), seen(11, 2, 2, 2)]),
        frame(800_000, 600_000, vec![seen(14, 3, 3, 3), seen(12, 4, 4, 4), seen(7, 0, 0, 0)]),
    ];
    let fused = fuse(&frames, CAR, Quadrant::BottomRight, &mut memory);
    assert_eq!(fused, Fused { vehicle: None, size: size(800_000, 600_000) });
    assert_eq!(memory.top_left, Some(seen(13, 1, 1, 1)));
    assert_eq!(memory.top_right, Some(seen(11, 2, 2, 2)));
    assert_eq!(memory.bottom_left, Some(seen(14, 3, 3, 3)));
    assert_eq!(memory.bottom_right, Some(seen(12, 4, 4, 4)));
}

#[test]
fn landmarks_are_overwritten_and_never_cleared() {
    let mut memory = LandmarkMemory::new();
    let first = vec![
        frame(640_000, 480_000, vec![seen(13, 1, 1, 1)]),
        frame(640_000, 480_000, vec![seen(13, 2, 2, 2), seen(11, 3, 3, 3)]),
    ];
    fuse(&first, CAR, Quadrant::TopLeft, &mut memory);
    assert_eq!(memory.top_left, Some(seen(13, 2, 2, 2)));
    assert_eq!(memory.top_right, Some(seen(11, 3, 3, 3)));
    let second = vec![frame(640_000, 480_000, vec![seen(11, 4, 4, 4)]), frame(1, 1, vec![])];
    fuse(&second, CAR, Quadrant::TopLeft, &mut memory);
    assert_eq!(memory.top_left, Some(seen(13, 2, 2, 2)));
    assert_eq!(memory.top_right, Some(seen(11, 4, 4, 4)));
    fuse(&vec![], CAR, Quadrant::TopLeft, &mut memory);
    assert_eq!(memory.top_left, Some(seen(13, 2, 2, 2)));
    assert_eq!(memory.top_right, Some(seen(11, 4, 4, 4)));
}

#[test]
fn vehicle_may_carry_a_landmark_id() {
    let mut memory = LandmarkMemory::new();
    let frames = vec![frame(10, 10, vec![seen(13, 1, 1, 1)]), frame(20, 20, vec![seen(13, 2, 2, 2)])];
    let fused = fuse(&frames, 13, Quadrant::TopLeft, &mut memory);
    assert_eq!(fused, Fused { vehicle: Some(seen(13, 2, 2, 2)), size: size(20, 20) });
    assert_eq!(memory.top_left, Some(seen(13, 2, 2, 2)));
}

#[test]
fn duplicate_ids_in_a_frame_count_once_the_last() {
    let mut memory = LandmarkMemory::new();
    let frames = vec![frame(
        10,
        10,
        vec![seen(9, 1, 1, 1), seen(12, 1, 1, 1), seen(9, 2, 2, 2), seen(12, 2, 2, 2)],
    )];
    let fused = fuse(&frames, CAR, Quadrant::BottomRight, &mut memory);
    assert_eq!(fused.vehicle, Some(seen(9, 2, 2, 2)));
    assert_eq!(memory.bottom_right, Some(seen(12, 2, 2, 2)));
}
