use vstd::prelude::*;
use crate::motion::{Position, fits_i64};

verus! {

/// Speed of the camera carrier, in world units per second.
pub const CAMERA_SPEED: i64 = 5;

/// The carrier turns East once y exceeds 500 units.
pub const NORTH_TURN: i64 = 500_000_000;

/// The carrier turns South once x exceeds 500 units.
pub const EAST_TURN: i64 = 500_000_000;

/// The carrier turns West once y falls below -500 units.
pub const SOUTH_TURN: i64 = -500_000_000;

/// The carrier turns North once x falls below -1000 units.
pub const WEST_TURN: i64 = -1_000_000_000;

/// The heading of the camera carrier.
#[derive(Clone, Copy, Debug, PartialEq, Eq, Structural)]
pub enum Direction {
    North,
    East,
    South,
    West,
}

/// The camera carrier, which patrols a rectangle.
#[derive(Clone, Copy, Debug, PartialEq, Eq, Structural)]
pub struct Dolly {
    pub direction: Direction,
}

impl Dolly {
    /// A carrier at the start of its patrol, heading North.
    pub fn new() -> (r: Dolly)
        ensures
            r.direction == Direction::North,
    {
        Dolly { direction: Direction::North }
    }
}

/// The heading that follows `d` in the patrol.
pub open spec fn next_direction(d: Direction) -> Direction {
    match d {
        Direction::North => Direction::East,
        Direction::East => Direction::South,
        Direction::South => Direction::West,
        Direction::West => Direction::North,
    }
}

/// One frame of `dt` microseconds of the patrol from heading `d` at `(x, y)`:
/// the carrier moves along its heading, then turns if it passed that
/// heading's bound.
pub open spec fn camera_frame(d: Direction, x: int, y: int, dt: int) -> (Direction, int, int) {
    let step = CAMERA_SPEED * dt;
    match d {
        Direction::North => {
            let ny = y + step;
            (if ny > NORTH_TURN { Direction::East } else { Direction::North }, x, ny)
        },
        Direction::East => {
            let nx = x + step;
            (if nx > EAST_TURN { Direction::South } else { Direction::East }, nx, y)
        },
        Direction::South => {
            let ny = y - step;
            (if ny < SOUTH_TURN { Direction::West } else { Direction::South }, x, ny)
        },
        Direction::West => {
            let nx = x - step;
            (if nx < WEST_TURN { Direction::North } else { Direction::West }, nx, y)
        },
    }
}

/// The heading and position of the carrier after the frames `dts`, in order.
pub open spec fn camera_after(d: Direction, x: int, y: int, dts: Seq<int>) -> (Direction, int, int)
    decreases dts.len(),
{
    if dts.len() == 0 {
        (d, x, y)
    } else {
        let prev = camera_after(d, x, y, dts.drop_last());
        camera_frame(prev.0, prev.1, prev.2, dts.last())
    }
}

pub open spec fn total(dts: Seq<int>) -> int
    decreases dts.len(),
{
    if dts.len() == 0 {
        0
    } else {
        total(dts.drop_last()) + dts.last()
    }
}

/// Whether one frame of `dt` microseconds keeps the moved coordinate within `i64`.
pub open spec fn camera_frame_fits(d: Direction, x: int, y: int, dt: int) -> bool {
    let f = camera_frame(d, x, y, dt);
    fits_i64(f.1) && fits_i64(f.2)
}

/// Moves the carrier by one frame of `dt_us` microseconds along its heading,
/// then turns it if it passed that heading's bound.
pub fn update_camera(dolly: &mut Dolly, position: &mut Position, dt_us: u64)
    requires
        camera_frame_fits(old(dolly).direction, old(position).x as int, old(position).y as int, dt_us as int),
    ensures
        ({
            let f = camera_frame(old(dolly).direction, old(position).x as int, old(position).y as int, dt_us as int);
            &&& final(dolly).direction == f.0
            &&& final(position).x == f.1
            &&& final(position).y == f.2
        }),
{
    let step: i128 = CAMERA_SPEED as i128 * dt_us as i128;
    match dolly.direction {
        Direction::North => {
            position.y = (position.y as i128 + step) as i64;
            if position.y > NORTH_TURN {
                dolly.direction = Direction::East;
            }
        },
        Direction::East => {
            position.x = (position.x as i128 + step) as i64;
            if position.x > EAST_TURN {
                dolly.direction = Direction::South;
            }
        },
        Direction::South => {
            position.y = (position.y as i128 - step) as i64;
            if position.y < SOUTH_TURN {
                dolly.direction = Direction::West;
            }
        },
        Direction::West => {
            position.x = (position.x as i128 - step) as i64;
            if position.x < WEST_TURN {
                dolly.direction = Direction::North;
            }
        },
    }
}

/// A frame either keeps the heading or turns to the next one, so the patrol
/// goes North, East, South, West and back to North.
pub proof fn lemma_patrol_cycle(d: Direction, x: int, y: int, dt: int)
    ensures
        camera_frame(d, x, y, dt).0 == d || camera_frame(d, x, y, dt).0 == next_direction(d),
        next_direction(next_direction(next_direction(next_direction(d)))) == d,
{
}

/// Heading North from `y`, the carrier keeps its heading and climbs five units
/// per second as long as it has not passed 500 units.
pub proof fn lemma_north_leg(x: int, y: int, dts: Seq<int>)
    requires
        forall|i: int| 0 <= i < dts.len() ==> dts[i] >= 0,
        y + CAMERA_SPEED * total(dts) <= NORTH_TURN,
    ensures
        camera_after(Direction::North, x, y, dts) == (Direction::North, x, y + CAMERA_SPEED * total(dts)),
    decreases dts.len(),
{
    if dts.len() > 0 {
        let pre = dts.drop_last();
        assert forall|i: int| 0 <= i < pre.len() implies pre[i] >= 0 by {
            assert(pre[i] == dts[i]);
        }
        assert(dts.last() >= 0);
        lemma_north_leg(x, y, pre);
    }
}

/// Heading North from y = 0, the carrier stands at y = 500 units exactly when
/// 100 seconds have passed: before that it is lower, and at that moment it is
/// still heading North; any further time turns it East.
pub proof fn lemma_north_leg_takes_100_seconds(x: int, dts: Seq<int>, dt: int)
    requires
        forall|i: int| 0 <= i < dts.len() ==> dts[i] >= 0,
        total(dts) <= 100_000_000,
        dt > 0,
    ensures
        camera_after(Direction::North, x, 0, dts).0 == Direction::North,
        camera_after(Direction::North, x, 0, dts).2 == 500_000_000 <==> total(dts) == 100_000_000,
        camera_after(Direction::North, x, 0, dts).2 <= 500_000_000,
        total(dts) == 100_000_000 ==> camera_after(Direction::North, x, 0, dts.push(dt)).0 == Direction::East,
{
    lemma_north_leg(x, 0, dts);
    let ext = dts.push(dt);
    assert(ext.drop_last() =~= dts);
}

} // verus!
