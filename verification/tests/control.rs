use arena_pilot::config::{Config, ForwardEdge, Polarity};
use arena_pilot::control::{Controller, Tick, MISS_LIMIT, SEARCH_SPEED, TICK_PERIOD_MS};
use arena_pilot::fusion::{Frame, LandmarkMemory};
use arena_pilot::pose::{MarkerObservation, Point, Size};
use arena_pilot::quadrant::Quadrant;
use arena_pilot::steering::{steer, DriveCmd};

fn seen(id: i32, x: i32, y: i32, heading: i32) -> MarkerObservation {
    MarkerObservation { id, centroid: Point { x, y }, heading }
}

fn sized(width: i32, height: i32, markers: Vec<MarkerObservation>) -> Frame {
    let mut frame = Frame::new(Size { width, height });
    for marker in markers {
        frame.insert(marker);
    }
    frame
}

fn frame(markers: Vec<MarkerObservation>) -> Frame {
    sized(640_000, 480_000, markers)
}

fn sent_to(target: Quadrant) -> Controller {
    let mut controller = Controller::new(Config::default());
    assert!(controller.assign(Some(target)));
    controller
}

const SEARCH: Tick = Tick::CarMissing { search: Some(DriveCmd { speed: -450, flip: true }) };
const WAIT: Tick = Tick::CarMissing { search: None };

#[test]
fn constants_are_those_of_the_loop() {
    assert_eq!(MISS_LIMIT, 3);
    assert_eq!(SEARCH_SPEED, 450);
    assert_eq!(TICK_PERIOD_MS, 100);
}

#[test]
fn new_controller_knows_nothing() {
    let controller = Controller::new(Config::default());
    assert_eq!(controller.config, Config::default());
    assert_eq!(controller.memory, LandmarkMemory::new());
    assert_eq!(controller.target, None);
    assert_eq!(controller.misses, 0);
    assert_eq!(controller.target_centre(), None);
}

#[test]
fn without_a_target_a_tick_does_nothing() {
    let mut controller = Controller::new(Config::default());
    let before = controller;
    let frames = vec![frame(vec![seen(9, 1, 1, 1), seen(13, 2, 2, 2)])];
    assert_eq!(controller.tick(&frames), Tick::NoTarget);
    assert_eq!(controller.tick(&vec![]), Tick::NoTarget);
    assert_eq!(controller, before);
}

#[test]
fn search_spin_starts_on_the_fourth_miss() {
    let mut controller = sent_to(Quadrant::TopLeft);
    let blind = vec![frame(vec![seen(13, 5, 5, 0)]), frame(vec![])];
    assert_eq!(controller.tick(&blind), WAIT);
    assert_eq!(controller.misses, 1);
    assert_eq!(controller.tick(&blind), WAIT);
    assert_eq!(controller.tick(&vec![]), WAIT);
    assert_eq!(controller.misses, 3);
    assert_eq!(controller.tick(&blind), SEARCH);
    assert_eq!(controller.misses, 4);
    assert_eq!(controller.tick(&blind), SEARCH);
    assert_eq!(controller.misses, 5);
}

#[test]
fn search_spin_follows_the_polarity() {
    let config = Config {
        vehicle_id: 9,
        angle_tolerance: 500_000,
        polarity: Polarity::Direct,
        forward_edge: ForwardEdge::Top,
    };
    let mut controller = Controller::new(config);
    controller.assign(Some(Quadrant::TopLeft));
    controller.misses = 3;
    assert_eq!(
        controller.tick(&vec![]),
        Tick::CarMissing { search: Some(DriveCmd { speed: 450, flip: true }) }
    );
    assert_eq!(controller.search(), DriveCmd { speed: 450, flip: true });
    assert_eq!(sent_to(Quadrant::TopLeft).search(), DriveCmd { speed: -450, flip: true });
}

#[test]
fn sighting_resets_the_misses() {
    let mut controller = sent_to(Quadrant::TopLeft);
    for _ in 0..6 {
        controller.tick(&vec![]);
    }
    assert_eq!(controller.misses, 6);
    assert_eq!(controller.tick(&vec![frame(vec![seen(9, 1, 1, 1)])]), Tick::TargetUnresolvable);
    assert_eq!(controller.misses, 0);
    assert_eq!(controller.tick(&vec![]), WAIT);
    assert_eq!(controller.tick(&vec![]), WAIT);
    assert_eq!(controller.tick(&vec![]), WAIT);
    assert_eq!(controller.tick(&vec![]), SEARCH);
}

#[test]
fn miss_count_may_reach_its_limit() {
    let mut controller = sent_to(Quadrant::TopLeft);
    controller.misses = u32::MAX - 1;
    assert_eq!(controller.tick(&vec![]), SEARCH);
    assert_eq!(controller.misses, u32::MAX);
}

#[test]
fn without_a_target_a_full_miss_count_is_no_obstacle() {
    let mut controller = Controller::new(Config::default());
    controller.misses = u32::MAX;
    assert_eq!(controller.tick(&vec![]), Tick::NoTarget);
    assert_eq!(controller.tick(&vec![frame(vec![seen(9, 1, 1, 1)])]), Tick::NoTarget);
    assert_eq!(controller.misses, u32::MAX);
}

#[test]
fn search_spin_and_turn_on_positive_error_have_opposite_signs() {
    for polarity in [Polarity::Direct, Polarity::Reversed] {
        let config = Config {
            vehicle_id: 9,
            angle_tolerance: 500_000,
            polarity,
            forward_edge: ForwardEdge::Top,
        };
        let search = Controller::new(config).search();
        let turn = steer(&config, Point { x: 0, y: 0 }, 0, Point { x: 0, y: 100_000 }, 1_570_796);
        let sign = if polarity == Polarity::Direct { 1 } else { -1 };
        assert_eq!(search, DriveCmd { speed: 450 * sign, flip: true });
        assert_eq!(turn, DriveCmd { speed: -200 * sign, flip: true });
    }
}

#[test]
fn vehicle_without_known_target_is_unresolvable() {
    let mut controller = sent_to(Quadrant::BottomRight);
    let frames = vec![frame(vec![seen(9, 1, 1, 1), seen(13, 2, 2, 2), seen(11, 3, 3, 3)])];
    assert_eq!(controller.tick(&frames), Tick::TargetUnresolvable);
    assert_eq!(controller.target_centre(), None);
    assert_eq!(controller.memory.top_left, Some(seen(13, 2, 2, 2)));
    assert_eq!(controller.memory.top_right, Some(seen(11, 3, 3, 3)));
}

#[test]
fn vehicle_inside_the_radius_has_arrived() {
    let mut controller = sent_to(Quadrant::TopLeft);
    let frames = vec![frame(vec![seen(9, 100_000, 100_000, 0), seen(13, 149_900, 100_000, 0)])];
    assert_eq!(controller.tick(&frames), Tick::Arrived { command: DriveCmd { speed: 0, flip: false } });
    assert_eq!(controller.misses, 0);
}

#[test]
fn vehicle_on_the_radius_is_still_steered() {
    let mut controller = sent_to(Quadrant::TopLeft);
    let frames = vec![frame(vec![seen(9, 100_000, 100_000, 7), seen(13, 150_000, 100_000, 0)])];
    assert_eq!(
        controller.tick(&frames),
        Tick::Steering {
            position: Point { x: 100_000, y: 100_000 },
            heading: 7,
            target: Point { x: 150_000, y: 100_000 },
            quadrant: Quadrant::TopLeft,
        }
    );
}

#[test]
fn steering_uses_the_remembered_landmark() {
    let mut controller = sent_to(Quadrant::BottomRight);
    assert_eq!(controller.tick(&vec![frame(vec![seen(12, 500_000, 400_000, 0)])]), WAIT);
    assert_eq!(controller.target_centre(), Some(Point { x: 500_000, y: 400_000 }));
    let tick = controller.tick(&vec![frame(vec![seen(9, 400_000, 100_000, -20)])]);
    assert_eq!(
        tick,
        Tick::Steering {
            position: Point { x: 400_000, y: 100_000 },
            heading: -20,
            target: Point { x: 500_000, y: 400_000 },
            quadrant: Quadrant::TopRight,
        }
    );
}

#[test]
fn steering_places_the_vehicle_in_the_frame_that_shows_the_target() {
    let mut controller = sent_to(Quadrant::BottomRight);
    let frames = vec![
        sized(640_000, 480_000, vec![seen(9, 300_000, 200_000, 0)]),
        sized(400_000, 300_000, vec![seen(12, 390_000, 290_000, 0)]),
    ];
    assert_eq!(
        controller.tick(&frames),
        Tick::Steering {
            position: Point { x: 300_000, y: 200_000 },
            heading: 0,
            target: Point { x: 390_000, y: 290_000 },
            quadrant: Quadrant::BottomRight,
        }
    );
}

#[test]
fn tick_then_steer_drives_toward_the_target() {
    let mut controller = sent_to(Quadrant::TopRight);
    let frames = vec![frame(vec![seen(9, 100_000, 100_000, 0), seen(11, 400_000, 100_000, 0)])];
    match controller.tick(&frames) {
        Tick::Steering { position, heading, target, quadrant } => {
            assert_eq!(quadrant, Quadrant::TopLeft);
            let cmd = steer(&controller.config, position, heading, target, 0);
            assert_eq!(cmd, DriveCmd { speed: 850, flip: false });
        }
        other => panic!("{other:?}"),
    }
}

#[test]
fn assignment_changes_the_target_only() {
    let mut controller = sent_to(Quadrant::TopLeft);
    controller.tick(&vec![frame(vec![seen(13, 1, 2, 3)])]);
    let before = controller;
    assert!(!controller.assign(Some(Quadrant::TopLeft)));
    assert_eq!(controller, before);
    assert!(!controller.assign(None));
    assert_eq!(controller, before);
    assert!(controller.assign(Some(Quadrant::BottomLeft)));
    assert_eq!(controller.target, Some(Quadrant::BottomLeft));
    assert_eq!(controller.memory, before.memory);
    assert_eq!(controller.misses, before.misses);
    assert_eq!(controller.config, before.config);
    assert_eq!(controller.target_centre(), None);
    assert!(controller.assign(Some(Quadrant::TopLeft)));
    assert_eq!(controller.target_centre(), Some(Point { x: 1, y: 2 }));
}

#[test]
fn same_quadrant_twice_is_announced_once() {
    let mut controller = Controller::new(Config::default());
    let first = controller.assign(Quadrant::parse("Q2"));
    let second = controller.assign(Quadrant::parse("Q2"));
    assert!(first);
    assert!(!second);
    assert_eq!(controller.target, Some(Quadrant::TopRight));
}
