//! Entities of the simulation: the player, the obstacles and the projectiles.
use vstd::prelude::*;
use crate::geometry::{Circle, Rect, circle_overlaps_rect, within_limit};

verus! {

/// Milli-pixels in one pixel: the unit of every length.
pub const SCALE: i64 = 1000;

/// Microseconds in one second: speeds are per second, times in microseconds.
pub const MICROS_PER_SECOND: i64 = 1_000_000;

/// Largest speed of an entity, in milli-pixels per second.
pub const MAX_SPEED: i64 = 0x100_0000;

/// Largest size of an entity, in milli-pixels.
pub const MAX_SIZE: i64 = 0x1_0000_0000;

/// Largest time step of one frame, in microseconds.
pub const MAX_FRAME_MICROS: u64 = 0x1_0000_0000;

/// Largest magnitude of a position between frames.
pub const POSITION_LIMIT: i64 = 0x100_0000_0000;

/// Colour tag of an entity; it plays no part in the simulation.
#[derive(Clone, Copy, Debug, PartialEq, Eq, Structural)]
pub enum Tint {
    Red,
    SkyBlue,
    Purple,
    Pink,
    LightGray,
    Yellow,
    Magenta,
}

/// A simulated entity. Obstacles are boxes with `(x, y)` their top-left
/// corner; the player and projectiles are circles with `(x, y)` their center.
/// `size` is the box's edge or the circle's diameter.
#[derive(Clone, Copy, Debug, PartialEq, Eq, Structural)]
pub struct Shape {
    pub size: i64,
    pub speed: i64,
    pub x: i64,
    pub y: i64,
    pub color: Tint,
    pub collided: bool,
}

/// Distance covered at `speed` in `dt` microseconds, rounded down.
pub open spec fn displacement(speed: int, dt: int) -> int {
    speed * dt / (MICROS_PER_SECOND as int)
}

/// Score for destroying an obstacle: its size in pixels, halves rounded up.
pub open spec fn points(size: int) -> int {
    (size + (SCALE as int) / 2) / (SCALE as int)
}

impl Shape {
    /// Between frames: positive size, bounded speed and position.
    pub open spec fn wf(&self) -> bool {
        0 < self.size <= MAX_SIZE && 0 <= self.speed <= MAX_SPEED
            && -POSITION_LIMIT <= self.x <= POSITION_LIMIT
            && -POSITION_LIMIT <= self.y <= POSITION_LIMIT
    }

    /// Within a frame, after one move: a looser bound on the position.
    pub open spec fn in_flight(&self) -> bool {
        0 < self.size <= MAX_SIZE && 0 <= self.speed <= MAX_SPEED
            && within_limit(self.x as int) && within_limit(self.y as int)
    }

    pub open spec fn circle_spec(&self) -> Circle {
        Circle { x: self.x, y: self.y, diameter: self.size }
    }

    pub open spec fn rect_spec(&self) -> Rect {
        Rect { x: self.x, y: self.y, w: self.size, h: self.size }
    }

    /// The shape after falling for `dt` microseconds.
    pub open spec fn fallen(self, dt: int) -> Shape {
        Shape { y: (self.y + displacement(self.speed as int, dt)) as i64, ..self }
    }

    /// The shape after rising for `dt` microseconds.
    pub open spec fn risen(self, dt: int) -> Shape {
        Shape { y: (self.y - displacement(self.speed as int, dt)) as i64, ..self }
    }
}

/// `c`, taken as a circle, overlaps `b`, taken as a box.
pub open spec fn strikes(c: Shape, b: Shape) -> bool {
    circle_overlaps_rect(c.circle_spec(), b.rect_spec())
}

pub proof fn lemma_displacement_bound(speed: int, dt: int)
    requires
        0 <= speed <= MAX_SPEED,
        0 <= dt <= MAX_FRAME_MICROS,
    ensures
        0 <= speed * dt <= 0x100_0000_0000_0000,
        0 <= displacement(speed, dt) <= 0x40_0000_0000,
{
    assert(0 <= speed * dt <= 0x100_0000 * 0x1_0000_0000) by (nonlinear_arith)
        requires
            0 <= speed <= 0x100_0000,
            0 <= dt <= 0x1_0000_0000,
    ;
}

/// Distance covered at `speed` in `dt` microseconds, rounded down.
pub fn travel(speed: i64, dt: u64) -> (r: i64)
    requires
        0 <= speed <= MAX_SPEED,
        dt <= MAX_FRAME_MICROS,
    ensures
        r == displacement(speed as int, dt as int),
        0 <= r <= 0x40_0000_0000,
{
    proof { lemma_displacement_bound(speed as int, dt as int); }
    let product: i64 = speed * (dt as i64);
    product / MICROS_PER_SECOND
}

/// Score for destroying an obstacle of `size`.
pub fn points_for(size: i64) -> (r: u32)
    requires
        0 < size <= MAX_SIZE,
    ensures
        r == points(size as int),
{
    ((size + SCALE / 2) / SCALE) as u32
}

impl Shape {
    /// The circle of this entity.
    pub fn circle(&self) -> (r: Circle)
        ensures
            r == self.circle_spec(),
    {
        Circle { x: self.x, y: self.y, diameter: self.size }
    }

    /// The box of this entity.
    pub fn rect(&self) -> (r: Rect)
        ensures
            r == self.rect_spec(),
    {
        Rect { x: self.x, y: self.y, w: self.size, h: self.size }
    }

    /// Whether this entity, as a circle, overlaps `other`, as a box.
    pub fn circle_collides_with(&self, other: &Shape) -> (r: bool)
        requires
            self.in_flight(),
            other.in_flight(),
        ensures
            r == strikes(*self, *other),
    {
        self.circle().overlaps_rect(&other.rect())
    }

    /// Moves down by what `speed` covers in `dt` microseconds.
    pub fn fall(&mut self, dt: u64)
        requires
            old(self).wf(),
            dt <= MAX_FRAME_MICROS,
        ensures
            *final(self) == old(self).fallen(dt as int),
            final(self).in_flight(),
    {
        let d = travel(self.speed, dt);
        self.y = self.y + d;
    }

    /// Moves up by what `speed` covers in `dt` microseconds.
    pub fn rise(&mut self, dt: u64)
        requires
            old(self).wf(),
            dt <= MAX_FRAME_MICROS,
        ensures
            *final(self) == old(self).risen(dt as int),
            final(self).in_flight(),
    {
        let d = travel(self.speed, dt);
        self.y = self.y - d;
    }
}

} // verus!
