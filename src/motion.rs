use vstd::prelude::*;

verus! {

/// Millionths of a world unit in one world unit.
pub const MICROS_PER_UNIT: i64 = 1_000_000;

/// A sprite turns back once either coordinate leaves this bound (200 units).
pub const BOUNCE_BOUND: i64 = 200_000_000;

/// A point of the plane, each coordinate in millionths of a world unit.
#[derive(Clone, Copy, Debug, PartialEq, Eq, Structural)]
pub struct Position {
    pub x: i64,
    pub y: i64,
}

impl Position {
    pub fn new(x: i64, y: i64) -> (r: Position)
        ensures
            r.x == x,
            r.y == y,
    {
        Position { x, y }
    }
}

/// The motion of a foreground sprite: speeds in world units per second, and
/// one direction flag shared by both axes (`toward`: add the speed, else
/// subtract it).
#[derive(Clone, Copy, Debug, PartialEq, Eq, Structural)]
pub struct Movement {
    pub toward: bool,
    pub x_speed: i64,
    pub y_speed: i64,
}

impl Movement {
    pub fn new(toward: bool, x_speed: i64, y_speed: i64) -> (r: Movement)
        ensures
            r.toward == toward,
            r.x_speed == x_speed,
            r.y_speed == y_speed,
    {
        Movement { toward, x_speed, y_speed }
    }
}

/// One coordinate after a frame of `dt` microseconds at `speed` units per
/// second, forward when `toward` holds and backward otherwise.
pub open spec fn moved(toward: bool, pos: int, speed: int, dt: int) -> int {
    if toward {
        pos + speed * dt
    } else {
        pos - speed * dt
    }
}

/// The signed contribution of one frame to a coordinate.
pub open spec fn contribution(toward: bool, speed: int, dt: int) -> int {
    if toward {
        speed * dt
    } else {
        -(speed * dt)
    }
}

pub open spec fn abs(v: int) -> int {
    if v < 0 {
        -v
    } else {
        v
    }
}

/// Whether a point lies outside the bounce box: `|x| > 200` or `|y| > 200` units.
pub open spec fn outside(x: int, y: int) -> bool {
    abs(x) > BOUNCE_BOUND || abs(y) > BOUNCE_BOUND
}

pub open spec fn fits_i64(v: int) -> bool {
    i64::MIN <= v <= i64::MAX
}

/// One frame of a sprite whose flag is `toward` and whose position is
/// `(x, y)`: both axes move by the flag read at the start of the frame, and the
/// flag flips when the new position lies outside the bounce box.
pub open spec fn sprite_frame(m: Movement, toward: bool, x: int, y: int, dt: int) -> (
    bool,
    int,
    int,
) {
    let nx = moved(toward, x, m.x_speed as int, dt);
    let ny = moved(toward, y, m.y_speed as int, dt);
    (toward != outside(nx, ny), nx, ny)
}

/// The flag and position of a sprite after the frames `dts`, in order.
pub open spec fn sprite_after(m: Movement, x: int, y: int, dts: Seq<int>) -> (bool, int, int)
    decreases dts.len(),
{
    if dts.len() == 0 {
        (m.toward, x, y)
    } else {
        let prev = sprite_after(m, x, y, dts.drop_last());
        sprite_frame(m, prev.0, prev.1, prev.2, dts.last())
    }
}

/// The flag at the start of frame `i`.
pub open spec fn toward_at(m: Movement, x: int, y: int, dts: Seq<int>, i: int) -> bool {
    sprite_after(m, x, y, dts.take(i)).0
}

/// The sum over the first `n` frames of `speed * dt`, each signed by the flag
/// at the start of its frame.
pub open spec fn displacement(m: Movement, x: int, y: int, dts: Seq<int>, speed: int, n: nat) -> int
    decreases n,
{
    if n == 0 {
        0
    } else {
        displacement(m, x, y, dts, speed, (n - 1) as nat) + contribution(
            toward_at(m, x, y, dts, n - 1),
            speed,
            dts[n - 1],
        )
    }
}

/// Over any run of frames with non-negative durations, each coordinate of a
/// sprite ends at its start plus the sum of `speed * dt` over the frames, each
/// term signed by the direction flag at the start of its frame.
pub proof fn lemma_position_is_sum_of_frames(m: Movement, x: int, y: int, dts: Seq<int>)
    requires
        forall|i: int| 0 <= i < dts.len() ==> dts[i] >= 0,
    ensures
        sprite_after(m, x, y, dts).1 == x + displacement(m, x, y, dts, m.x_speed as int, dts.len()),
        sprite_after(m, x, y, dts).2 == y + displacement(m, x, y, dts, m.y_speed as int, dts.len()),
{
    lemma_prefix_sum(m, x, y, dts, dts.len());
    assert(dts.take(dts.len() as int) =~= dts);
}

proof fn lemma_prefix_sum(m: Movement, x: int, y: int, dts: Seq<int>, n: nat)
    requires
        n <= dts.len(),
    ensures
        sprite_after(m, x, y, dts.take(n as int)).1 == x + displacement(m, x, y, dts, m.x_speed as int, n),
        sprite_after(m, x, y, dts.take(n as int)).2 == y + displacement(m, x, y, dts, m.y_speed as int, n),
    decreases n,
{
    if n == 0 {
        assert(dts.take(0).len() == 0);
    } else {
        lemma_prefix_sum(m, x, y, dts, (n - 1) as nat);
        let pre = dts.take(n as int);
        assert(pre.drop_last() =~= dts.take(n - 1));
        assert(pre.last() == dts[n - 1]);
    }
}

/// The flag flips on exactly the frames that end outside the bounce box; the
/// frame after such a flip moves both axes against the direction of the frame
/// that caused it.
pub proof fn lemma_flip_reverses_both_axes(m: Movement, toward: bool, x: int, y: int, dt1: int, dt2: int)
    requires
        dt1 >= 0,
        dt2 >= 0,
    ensures
        ({
            let f1 = sprite_frame(m, toward, x, y, dt1);
            let f2 = sprite_frame(m, f1.0, f1.1, f1.2, dt2);
            &&& f1.0 == (toward != outside(f1.1, f1.2))
            &&& f1.1 - x == contribution(toward, m.x_speed as int, dt1)
            &&& f1.2 - y == contribution(toward, m.y_speed as int, dt1)
            &&& outside(f1.1, f1.2) ==> f2.1 - f1.1 == -contribution(toward, m.x_speed as int, dt2)
            &&& outside(f1.1, f1.2) ==> f2.2 - f1.2 == -contribution(toward, m.y_speed as int, dt2)
            &&& !outside(f1.1, f1.2) ==> f2.1 - f1.1 == contribution(toward, m.x_speed as int, dt2)
            &&& !outside(f1.1, f1.2) ==> f2.2 - f1.2 == contribution(toward, m.y_speed as int, dt2)
        }),
{
}

/// Moves a sprite by one frame of `dt_us` microseconds, then flips its flag if
/// the new position lies outside the bounce box.
pub fn update_object(movement: &mut Movement, position: &mut Position, dt_us: u64)
    requires
        fits_i64(moved(old(movement).toward, old(position).x as int, old(movement).x_speed as int, dt_us as int)),
        fits_i64(moved(old(movement).toward, old(position).y as int, old(movement).y_speed as int, dt_us as int)),
    ensures
        ({
            let f = sprite_frame(*old(movement), old(movement).toward, old(position).x as int, old(position).y as int, dt_us as int);
            &&& final(movement).toward == f.0
            &&& final(position).x == f.1
            &&& final(position).y == f.2
        }),
        final(movement).x_speed == old(movement).x_speed,
        final(movement).y_speed == old(movement).y_speed,
{
    let nx = step_coordinate(movement.toward, position.x, movement.x_speed, dt_us);
    let ny = step_coordinate(movement.toward, position.y, movement.y_speed, dt_us);
    position.x = nx;
    position.y = ny;
    if is_outside(nx, ny) {
        movement.toward = !movement.toward;
    }
}

/// One coordinate moved for `dt_us` microseconds at `speed` units per second.
pub fn step_coordinate(toward: bool, pos: i64, speed: i64, dt_us: u64) -> (r: i64)
    requires
        fits_i64(moved(toward, pos as int, speed as int, dt_us as int)),
    ensures
        r == moved(toward, pos as int, speed as int, dt_us as int),
{
    let s = speed as i128;
    let t = dt_us as i128;
    assert(-0x8000_0000_0000_0000 * 0x1_0000_0000_0000_0000 <= s * t <= 0x8000_0000_0000_0000 * 0x1_0000_0000_0000_0000)
        by (nonlinear_arith)
        requires
            -0x8000_0000_0000_0000 <= s < 0x8000_0000_0000_0000,
            0 <= t < 0x1_0000_0000_0000_0000,
    ;
    let d = s * t;
    let r = if toward {
        pos as i128 + d
    } else {
        pos as i128 - d
    };
    r as i64
}

/// Whether a point lies outside the bounce box.
pub fn is_outside(x: i64, y: i64) -> (r: bool)
    ensures
        r == outside(x as int, y as int),
{
    x > BOUNCE_BOUND || x < -BOUNCE_BOUND || y > BOUNCE_BOUND || y < -BOUNCE_BOUND
}

} // verus!
