//! Creation of obstacles, drawn at random, and of projectiles.
use vstd::prelude::*;
use macroquad::rand::ChooseRandom;
use crate::entity::{Shape, Tint, MAX_SPEED, POSITION_LIMIT};
use crate::sweep::MAX_BOUND;

verus! {

/// Smallest and largest obstacle edge, in milli-pixels.
pub const MIN_OBSTACLE_SIZE: i64 = 16_000;
pub const MAX_OBSTACLE_SIZE: i64 = 64_000;

/// Slowest and fastest fall, in milli-pixels per second.
pub const MIN_FALL_SPEED: i64 = 50_000;
pub const MAX_FALL_SPEED: i64 = 150_000;

/// A frame spawns an obstacle when a roll drawn between 0 and `SPAWN_ROLL_MAX`
/// reaches `SPAWN_THRESHOLD`. The draw stays below its upper end in practice,
/// so the chance is 4 in 99.
pub const SPAWN_ROLL_MAX: i64 = 99;
pub const SPAWN_THRESHOLD: i64 = 95;

/// Diameter of a projectile, in milli-pixels.
pub const PROJECTILE_SIZE: i64 = 5_000;

/// Largest magnitude that the random draws are asked for.
const DRAW_LIMIT: i64 = 0x10_0000_0000_0000;

/// An obstacle as the spawner makes it: unmarked, sized and paced within the
/// configured ranges, just above the screen, and fully on a screen `width` wide
/// when it fits there (else between that place and the left edge).
pub open spec fn fresh_obstacle(o: Shape, width: int) -> bool {
    &&& o.wf()
    &&& !o.collided
    &&& MIN_OBSTACLE_SIZE <= o.size <= MAX_OBSTACLE_SIZE
    &&& MIN_FALL_SPEED <= o.speed <= MAX_FALL_SPEED
    &&& o.y == -o.size
    &&& place_fits(o.x as int, o.size as int, width)
}

/// No obstacle, or a fresh one.
pub open spec fn spawn_fits(s: Option<Shape>, width: int) -> bool {
    match s {
        Some(o) => fresh_obstacle(o, width),
        None => true,
    }
}

/// Relies on `macroquad::rand::gen_range` (quad_rand) for `i64`: it scales a
/// 32-bit draw into `[low, high)` in `f64` and truncates, so for operands that
/// `f64` holds exactly the result lies in `[low, high]`; it never panics.
#[verifier::external_body]
fn random_between(low: i64, high: i64) -> (r: i64)
    requires
        -DRAW_LIMIT <= low <= high <= DRAW_LIMIT,
    ensures
        low <= r <= high,
{
    macroquad::rand::gen_range(low, high)
}

/// Relies on `ChooseRandom::choose` of macroquad::rand (quad_rand) on a slice:
/// it returns `get` of a drawn index, so any tint it gives is in the palette.
#[verifier::external_body]
fn random_tint(palette: &Vec<Tint>) -> (r: Option<Tint>)
    ensures
        r matches Some(t) ==> palette@.contains(t),
{
    palette.as_slice().choose().copied()
}

/// The obstacle that a frame's draws make: none when the roll stays below
/// `SPAWN_THRESHOLD`, else an unmarked one just above the screen.
pub open spec fn drawn_obstacle(roll: i64, size: i64, speed: i64, x: i64, color: Tint) -> Option<Shape> {
    if roll < SPAWN_THRESHOLD {
        None
    } else {
        Some(Shape { size, speed, x, y: (-size) as i64, color, collided: false })
    }
}

/// The horizontal place drawn for an obstacle of `size` on a screen `width`
/// wide: fully on screen when it fits, else between there and the left edge.
pub open spec fn place_fits(x: int, size: int, width: int) -> bool {
    if size <= width {
        0 <= x <= width - size
    } else {
        width - size <= x <= 0
    }
}

/// Makes the obstacle that a frame's draws call for, if any.
pub fn obstacle_from_draws(roll: i64, size: i64, speed: i64, x: i64, color: Tint) -> (r: Option<Shape>)
    requires
        MIN_OBSTACLE_SIZE <= size <= MAX_OBSTACLE_SIZE,
    ensures
        r == drawn_obstacle(roll, size, speed, x, color),
{
    if roll < SPAWN_THRESHOLD {
        None
    } else {
        Some(Shape { size, speed, x, y: -size, color, collided: false })
    }
}

/// Draws whether this frame spawns an obstacle and, if so, the obstacle: the
/// roll in `[0, SPAWN_ROLL_MAX]`, the size and speed in their configured
/// ranges, the place so that the obstacle fits a screen `width` wide.
pub fn roll_obstacle(width: i64) -> (r: Option<Shape>)
    requires
        0 <= width <= MAX_BOUND,
    ensures
        spawn_fits(r, width as int),
        exists|roll: i64, size: i64, speed: i64, x: i64, color: Tint|
            0 <= roll <= SPAWN_ROLL_MAX && MIN_OBSTACLE_SIZE <= size <= MAX_OBSTACLE_SIZE
                && MIN_FALL_SPEED <= speed <= MAX_FALL_SPEED && place_fits(x as int, size as int, width as int)
                && r == #[trigger] drawn_obstacle(roll, size, speed, x, color),
{
    let roll = random_between(0, SPAWN_ROLL_MAX);
    let size = random_between(MIN_OBSTACLE_SIZE, MAX_OBSTACLE_SIZE);
    let speed = random_between(MIN_FALL_SPEED, MAX_FALL_SPEED);
    let room = width - size;
    let x = if room >= 0 {
        random_between(0, room)
    } else {
        random_between(room, 0)
    };
    let palette = vec![Tint::Red, Tint::SkyBlue, Tint::Purple, Tint::Pink, Tint::LightGray];
    let color = match random_tint(&palette) {
        Some(t) => t,
        None => Tint::Red,
    };
    obstacle_from_draws(roll, size, speed, x, color)
}

/// The projectile that `player` fires: from its top edge, at twice its speed.
pub open spec fn projectile_from(player: Shape) -> Shape {
    Shape {
        size: PROJECTILE_SIZE,
        speed: (2 * player.speed) as i64,
        x: player.x,
        y: (player.y - player.size / 2) as i64,
        color: Tint::Magenta,
        collided: false,
    }
}

/// Makes the projectile that `player` fires.
pub fn launch_projectile(player: &Shape) -> (r: Shape)
    requires
        player.wf(),
        player.speed <= MAX_SPEED / 2,
        -POSITION_LIMIT / 2 <= player.y <= POSITION_LIMIT / 2,
    ensures
        r == projectile_from(*player),
        r.wf(),
{
    Shape {
        size: PROJECTILE_SIZE,
        speed: 2 * player.speed,
        x: player.x,
        y: player.y - player.size / 2,
        color: Tint::Magenta,
        collided: false,
    }
}

} // verus!
