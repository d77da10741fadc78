//! The control law: turn in place until the vehicle faces the target, then
//! drive toward it at a speed that grows with the distance.

use vstd::prelude::*;
use crate::config::Config;
use crate::pose::Point;

verus! {

/// Half a turn (the angle pi), in microradians.
pub const HALF_TURN: i64 = 3_141_593;

/// A full turn, in microradians: twice `HALF_TURN`.
pub const FULL_TURN: i64 = 6_283_186;

/// The speed of a turn in place, in thousandths of full speed.
pub const TURN_SPEED: i32 = 200;

/// The least speed of a forward drive.
pub const MIN_DRIVE_SPEED: i32 = 450;

/// The greatest speed of a forward drive.
pub const MAX_DRIVE_SPEED: i32 = 850;

/// The distance, in pixels, that a forward drive's speed is divided from:
/// the speed is the distance over this, as a fraction of full speed.
pub const SPEED_DIVISOR: u64 = 300;

/// The distance to the target, in thousandths of a pixel, below which the
/// vehicle has arrived.
pub const ARRIVAL_RADIUS: u64 = 50_000;

/// A command for the actuator: a speed in thousandths of full speed, and
/// whether the vehicle is to rotate in place (`flip`) or to drive forward.
#[derive(Clone, Copy, Debug, PartialEq, Eq, Structural)]
pub struct DriveCmd {
    pub speed: i32,
    pub flip: bool,
}

/// The angle in `(-HALF_TURN, HALF_TURN]` that differs from `angle` by a
/// whole number of full turns.
pub open spec fn normalized(angle: int) -> int {
    HALF_TURN - (HALF_TURN - angle) % (FULL_TURN as int)
}

/// The normalized angle lies in `(-HALF_TURN, HALF_TURN]` and differs from
/// the angle by a whole number of full turns.
pub proof fn lemma_normalized_range(angle: int)
    ensures
        -HALF_TURN < normalized(angle) <= HALF_TURN,
        (normalized(angle) - angle) % (FULL_TURN as int) == 0,
{
}

/// An angle in `(-HALF_TURN, HALF_TURN]` that differs from `angle` by `turns`
/// full turns is the normalized angle: there is only one.
pub proof fn lemma_normalized_unique(angle: int, turns: int, r: int)
    requires
        -HALF_TURN < r <= HALF_TURN,
        r == angle + turns * FULL_TURN,
    ensures
        normalized(angle) == r,
{
}

/// Normalizing an angle that is already normalized changes nothing.
pub proof fn lemma_normalized_idempotent(angle: int)
    ensures
        normalized(normalized(angle)) == normalized(angle),
{
}

/// The heading error: how far the vehicle has to turn from `heading` to
/// face along `bearing`, brought into `(-HALF_TURN, HALF_TURN]` by adding
/// or subtracting full turns.
pub fn heading_error(bearing: i32, heading: i32) -> (err: i32)
    ensures
        err == normalized(bearing - heading),
        -HALF_TURN < err <= HALF_TURN,
{
    let raw: i64 = bearing as i64 - heading as i64;
    let mut err: i64 = raw;
    while err > HALF_TURN
        invariant
            normalized(err as int) == normalized(raw as int),
            -0x1_0000_0000 <= err <= 0x1_0000_0000,
        decreases err + 0x1_0000_0000,
    {
        err = err - FULL_TURN;
    }
    while err <= -HALF_TURN
        invariant
            normalized(err as int) == normalized(raw as int),
            -0x1_0000_0000 <= err <= HALF_TURN,
        decreases HALF_TURN - err,
    {
        err = err + FULL_TURN;
    }
    err as i32
}

/// The square of the distance between two points.
pub open spec fn distance_squared(a: Point, b: Point) -> nat {
    ((a.x - b.x) * (a.x - b.x) + (a.y - b.y) * (a.y - b.y)) as nat
}

/// Whether `r` is the square root of `n`, rounded down.
pub open spec fn is_floor_sqrt(n: nat, r: nat) -> bool {
    r * r <= n < (r + 1) * (r + 1)
}

/// The square root of `n`, rounded down.
pub open spec fn floor_sqrt(n: nat) -> nat {
    choose|r: nat| is_floor_sqrt(n, r)
}

/// A number has only one rounded-down square root.
pub proof fn lemma_floor_sqrt_is(n: nat, r: nat)
    requires
        is_floor_sqrt(n, r),
    ensures
        floor_sqrt(n) == r,
{
    let s = floor_sqrt(n);
    assert(s == r) by (nonlinear_arith)
        requires
            r * r <= n < (r + 1) * (r + 1),
            s * s <= n < (s + 1) * (s + 1),
    ;
}

/// Every number has a rounded-down square root.
pub proof fn lemma_floor_sqrt_exists(n: nat)
    ensures
        is_floor_sqrt(n, floor_sqrt(n)),
    decreases n,
{
    if n == 0 {
        assert(0nat * 0nat <= 0 < (0nat + 1) * (0nat + 1)) by (nonlinear_arith);
        assert(is_floor_sqrt(0, 0));
    } else {
        lemma_floor_sqrt_exists((n - 1) as nat);
        let r = floor_sqrt((n - 1) as nat);
        if (r + 1) * (r + 1) <= n {
            assert(is_floor_sqrt(n, r + 1)) by (nonlinear_arith)
                requires
                    r * r <= n - 1 < (r + 1) * (r + 1),
                    (r + 1) * (r + 1) <= n,
            ;
        } else {
            assert(is_floor_sqrt(n, r));
        }
    }
}

/// The distance between two points, rounded down to a whole thousandth of a pixel.
pub open spec fn distance_between(a: Point, b: Point) -> nat {
    floor_sqrt(distance_squared(a, b))
}

fn square_of_difference(a: i32, b: i32) -> (sq: u128)
    ensures
        sq == (a - b) * (a - b),
        sq <= 0x1_0000_0000_0000_0000,
{
    let diff: i64 = a as i64 - b as i64;
    let size: u64 = if diff < 0 {
        (-diff) as u64
    } else {
        diff as u64
    };
    assert(size * size == (a - b) * (a - b)) by (nonlinear_arith)
        requires
            size == a - b || size == -(a - b),
    ;
    assert(size * size <= 0x1_0000_0000_0000_0000) by (nonlinear_arith)
        requires
            size <= 0x1_0000_0000,
    ;
    (size as u128) * (size as u128)
}

fn square_root(n: u128) -> (r: u64)
    requires
        n <= 0x2_0000_0000_0000_0000,
    ensures
        r == floor_sqrt(n as nat),
        is_floor_sqrt(n as nat, r as nat),
{
    let mut low: u64 = 0;
    let mut high: u64 = 0x2_0000_0000;
    while high - low > 1
        invariant
            low < high <= 0x2_0000_0000,
            low * low <= n < high * high,
        decreases high - low,
    {
        let mid: u64 = low + (high - low) / 2;
        assert(mid * mid <= 0x4_0000_0000_0000_0000) by (nonlinear_arith)
            requires
                mid <= 0x2_0000_0000,
        ;
        let square: u128 = (mid as u128) * (mid as u128);
        if square <= n {
            low = mid;
        } else {
            high = mid;
        }
    }
    proof {
        lemma_floor_sqrt_is(n as nat, low as nat);
    }
    low
}

/// The distance between two points, rounded down to a whole thousandth of a pixel.
pub fn distance(a: Point, b: Point) -> (d: u64)
    ensures
        d == distance_between(a, b),
        d * d <= distance_squared(a, b) < (d + 1) * (d + 1),
{
    let sum: u128 = square_of_difference(a.x, b.x) + square_of_difference(a.y, b.y);
    square_root(sum)
}

/// Whether a vehicle at `position` has arrived at `target`: whether it is
/// less than `ARRIVAL_RADIUS` away. A vehicle exactly on the radius has not.
pub open spec fn has_arrived(position: Point, target: Point) -> bool {
    distance_squared(position, target) < ARRIVAL_RADIUS * ARRIVAL_RADIUS
}

/// To have arrived is to be at a distance below `ARRIVAL_RADIUS`, and the
/// rounding of the distance does not matter to it.
pub proof fn lemma_arrived_within_radius(position: Point, target: Point)
    ensures
        has_arrived(position, target) <==> distance_between(position, target) < ARRIVAL_RADIUS,
{
    let square = distance_squared(position, target);
    let d = distance_between(position, target);
    lemma_floor_sqrt_exists(square);
    assert(square < ARRIVAL_RADIUS * ARRIVAL_RADIUS <==> d < ARRIVAL_RADIUS) by (nonlinear_arith)
        requires
            d * d <= square < (d + 1) * (d + 1),
    ;
}

/// Whether a vehicle at `position` has arrived at `target`.
pub fn arrived(position: Point, target: Point) -> (r: bool)
    ensures
        r == has_arrived(position, target),
{
    let sum: u128 = square_of_difference(position.x, target.x) + square_of_difference(
        position.y,
        target.y,
    );
    assert(ARRIVAL_RADIUS * ARRIVAL_RADIUS == 2_500_000_000) by (nonlinear_arith);
    sum < (ARRIVAL_RADIUS as u128) * (ARRIVAL_RADIUS as u128)
}

/// The speed of a forward drive over `distance`, which is in thousandths
/// of a pixel: one thousandth of full speed for each `SPEED_DIVISOR`
/// thousandths of a pixel, rounded down and kept between `MIN_DRIVE_SPEED`
/// and `MAX_DRIVE_SPEED`.
pub open spec fn drive_speed(distance: nat) -> int {
    let speed = distance as int / SPEED_DIVISOR as int;
    if speed < MIN_DRIVE_SPEED {
        MIN_DRIVE_SPEED as int
    } else if speed > MAX_DRIVE_SPEED {
        MAX_DRIVE_SPEED as int
    } else {
        speed
    }
}

/// The speed of a turn in place that reduces the heading error `err`:
/// `TURN_SPEED` against the polarity's sign for a positive error, and with
/// it for any other.
pub open spec fn turn_speed(config: Config, err: int) -> int {
    if err > 0 {
        -config.polarity.sign() * TURN_SPEED
    } else {
        config.polarity.sign() * TURN_SPEED
    }
}

/// Whether a vehicle with heading error `err` has to turn before it drives.
pub open spec fn must_turn(config: Config, err: int) -> bool {
    err > config.angle_tolerance || -err > config.angle_tolerance
}

/// The command that steers a vehicle at `position`, facing along
/// `heading`, toward `target`, which lies in the direction `bearing`.
pub open spec fn steering(
    config: Config,
    position: Point,
    heading: i32,
    target: Point,
    bearing: i32,
) -> DriveCmd {
    let err = normalized(bearing - heading);
    if must_turn(config, err) {
        DriveCmd { speed: turn_speed(config, err) as i32, flip: true }
    } else {
        DriveCmd { speed: drive_speed(distance_between(position, target)) as i32, flip: false }
    }
}

/// Steers a vehicle at `position`, facing along `heading`, toward
/// `target`. `bearing` is the direction from `position` to `target`,
/// measured as headings are: the arc tangent of the target's offset.
///
/// Where the heading error exceeds the configured tolerance, the command
/// turns the vehicle in place toward the bearing; otherwise it drives the
/// vehicle forward, faster the farther away the target is.
pub fn steer(config: &Config, position: Point, heading: i32, target: Point, bearing: i32) -> (cmd:
    DriveCmd)
    ensures
        cmd == steering(*config, position, heading, target, bearing),
        cmd.flip <==> must_turn(*config, normalized(bearing - heading)),
        cmd.flip ==> cmd.speed == TURN_SPEED || cmd.speed == -TURN_SPEED,
        cmd.flip ==> cmd.speed == turn_speed(*config, normalized(bearing - heading)),
        !cmd.flip ==> MIN_DRIVE_SPEED <= cmd.speed <= MAX_DRIVE_SPEED,
        !cmd.flip ==> cmd.speed == drive_speed(distance_between(position, target)),
{
    let err: i32 = heading_error(bearing, heading);
    if err > config.angle_tolerance || -err > config.angle_tolerance {
        let speed: i32 = if err > 0 {
            config.polarity.oriented(-TURN_SPEED)
        } else {
            config.polarity.oriented(TURN_SPEED)
        };
        DriveCmd { speed, flip: true }
    } else {
        let speed: u64 = distance(position, target) / SPEED_DIVISOR;
        let speed: i32 = if speed < MIN_DRIVE_SPEED as u64 {
            MIN_DRIVE_SPEED
        } else if speed > MAX_DRIVE_SPEED as u64 {
            MAX_DRIVE_SPEED
        } else {
            speed as i32
        };
        DriveCmd { speed, flip: false }
    }
}

} // verus!
