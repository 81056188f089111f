//! Passes over the obstacle and projectile collections: moving, marking hits,
//! counting points and pruning.
use vstd::prelude::*;
use crate::entity::{Shape, strikes, points, POSITION_LIMIT, MAX_FRAME_MICROS};

verus! {

/// Largest screen extent, in milli-pixels.
pub const MAX_BOUND: i64 = 0x10_0000_0000;

pub open spec fn falling(dt: int) -> spec_fn(Shape) -> Shape {
    |s: Shape| s.fallen(dt)
}

pub open spec fn rising(dt: int) -> spec_fn(Shape) -> Shape {
    |s: Shape| s.risen(dt)
}

/// Some projectile of `shots` overlaps the obstacle `b`.
pub open spec fn struck(b: Shape, shots: Seq<Shape>) -> bool {
    exists|j: int| 0 <= j < shots.len() && strikes(#[trigger] shots[j], b)
}

/// The projectile `p` overlaps some obstacle of `boxes`.
pub open spec fn lands(p: Shape, boxes: Seq<Shape>) -> bool {
    exists|k: int| 0 <= k < boxes.len() && strikes(p, #[trigger] boxes[k])
}

/// The obstacle, marked when a projectile of `shots` overlaps it.
pub open spec fn struck_by(shots: Seq<Shape>) -> spec_fn(Shape) -> Shape {
    |b: Shape| Shape { collided: b.collided || struck(b, shots), ..b }
}

/// The projectile, marked when it overlaps an obstacle of `boxes`.
pub open spec fn spent_on(boxes: Seq<Shape>) -> spec_fn(Shape) -> Shape {
    |p: Shape| Shape { collided: p.collided || lands(p, boxes), ..p }
}

/// Points of the marked obstacles.
pub open spec fn bounty(boxes: Seq<Shape>) -> nat
    decreases boxes.len(),
{
    if boxes.len() == 0 {
        0
    } else {
        bounty(boxes.drop_last()) + if boxes.last().collided {
            points(boxes.last().size as int) as nat
        } else {
            0
        }
    }
}

/// An obstacle stays while unmarked and its top edge has not reached `height + size`.
pub open spec fn keeps_obstacle(height: int) -> spec_fn(Shape) -> bool {
    |b: Shape| b.y < height + b.size && !b.collided
}

/// A projectile stays while unmarked and its center has not risen above `-size`.
pub open spec fn keeps_projectile() -> spec_fn(Shape) -> bool {
    |p: Shape| p.y >= -p.size && !p.collided
}

pub open spec fn all_wf(v: Seq<Shape>) -> bool {
    forall|k: int| 0 <= k < v.len() ==> (#[trigger] v[k]).wf()
}

pub open spec fn all_in_flight(v: Seq<Shape>) -> bool {
    forall|k: int| 0 <= k < v.len() ==> (#[trigger] v[k]).in_flight()
}

pub open spec fn none_marked(v: Seq<Shape>) -> bool {
    forall|k: int| 0 <= k < v.len() ==> !(#[trigger] v[k]).collided
}

/// Moves every obstacle down by its own speed over `dt`.
pub fn fall_all(v: &mut Vec<Shape>, dt: u64)
    requires
        all_wf(old(v)@),
        dt <= MAX_FRAME_MICROS,
    ensures
        final(v)@ == old(v)@.map_values(falling(dt as int)),
        all_in_flight(final(v)@),
{
    let ghost start = v@;
    let mut i: usize = 0;
    while i < v.len()
        invariant
            v@.len() == start.len(),
            all_wf(start),
            dt <= MAX_FRAME_MICROS,
            forall|k: int| 0 <= k < i ==> #[trigger] v@[k] == start[k].fallen(dt as int),
            forall|k: int| 0 <= k < i ==> (#[trigger] v@[k]).in_flight(),
            forall|k: int| i <= k < v@.len() ==> #[trigger] v@[k] == start[k],
        decreases v.len() - i,
    {
        let mut s = v[i];
        s.fall(dt);
        v.set(i, s);
        i = i + 1;
    }
    assert(v@ =~= start.map_values(falling(dt as int)));
}

/// Moves every projectile up by its own speed over `dt`.
pub fn rise_all(v: &mut Vec<Shape>, dt: u64)
    requires
        all_wf(old(v)@),
        dt <= MAX_FRAME_MICROS,
    ensures
        final(v)@ == old(v)@.map_values(rising(dt as int)),
        all_in_flight(final(v)@),
{
    let ghost start = v@;
    let mut i: usize = 0;
    while i < v.len()
        invariant
            v@.len() == start.len(),
            all_wf(start),
            dt <= MAX_FRAME_MICROS,
            forall|k: int| 0 <= k < i ==> #[trigger] v@[k] == start[k].risen(dt as int),
            forall|k: int| 0 <= k < i ==> (#[trigger] v@[k]).in_flight(),
            forall|k: int| i <= k < v@.len() ==> #[trigger] v@[k] == start[k],
        decreases v.len() - i,
    {
        let mut s = v[i];
        s.rise(dt);
        v.set(i, s);
        i = i + 1;
    }
    assert(v@ =~= start.map_values(rising(dt as int)));
}

/// Whether the circle `c` overlaps any box of `boxes`.
pub fn touches_any(c: &Shape, boxes: &Vec<Shape>) -> (r: bool)
    requires
        c.in_flight(),
        all_in_flight(boxes@),
    ensures
        r == lands(*c, boxes@),
{
    let mut k: usize = 0;
    while k < boxes.len()
        invariant
            c.in_flight(),
            all_in_flight(boxes@),
            forall|m: int| 0 <= m < k ==> !strikes(*c, #[trigger] boxes@[m]),
        decreases boxes.len() - k,
    {
        if c.circle_collides_with(&boxes[k]) {
            return true;
        }
        k = k + 1;
    }
    false
}

/// Whether any circle of `shots` overlaps the box `b`.
pub fn hit_by_any(b: &Shape, shots: &Vec<Shape>) -> (r: bool)
    requires
        b.in_flight(),
        all_in_flight(shots@),
    ensures
        r == struck(*b, shots@),
{
    let mut j: usize = 0;
    while j < shots.len()
        invariant
            b.in_flight(),
            all_in_flight(shots@),
            forall|m: int| 0 <= m < j ==> !strikes(#[trigger] shots@[m], *b),
        decreases shots.len() - j,
    {
        if shots[j].circle_collides_with(b) {
            return true;
        }
        j = j + 1;
    }
    false
}

/// Marks every obstacle that a projectile of `shots` overlaps.
pub fn mark_struck(boxes: &mut Vec<Shape>, shots: &Vec<Shape>)
    requires
        all_in_flight(old(boxes)@),
        all_in_flight(shots@),
    ensures
        final(boxes)@ == old(boxes)@.map_values(struck_by(shots@)),
        all_in_flight(final(boxes)@),
{
    let ghost start = boxes@;
    let mut i: usize = 0;
    while i < boxes.len()
        invariant
            boxes@.len() == start.len(),
            all_in_flight(start),
            all_in_flight(shots@),
            forall|k: int| 0 <= k < i ==> #[trigger] boxes@[k] == (struck_by(shots@))(start[k]),
            forall|k: int| i <= k < boxes@.len() ==> #[trigger] boxes@[k] == start[k],
        decreases boxes.len() - i,
    {
        let mut b = boxes[i];
        let hit = hit_by_any(&b, shots);
        b.collided = b.collided || hit;
        boxes.set(i, b);
        i = i + 1;
    }
    assert(boxes@ =~= start.map_values(struck_by(shots@)));
}

/// Marks every projectile that overlaps an obstacle of `boxes`.
pub fn mark_spent(shots: &mut Vec<Shape>, boxes: &Vec<Shape>)
    requires
        all_in_flight(old(shots)@),
        all_in_flight(boxes@),
    ensures
        final(shots)@ == old(shots)@.map_values(spent_on(boxes@)),
        all_in_flight(final(shots)@),
{
    let ghost start = shots@;
    let mut i: usize = 0;
    while i < shots.len()
        invariant
            shots@.len() == start.len(),
            all_in_flight(start),
            all_in_flight(boxes@),
            forall|k: int| 0 <= k < i ==> #[trigger] shots@[k] == (spent_on(boxes@))(start[k]),
            forall|k: int| i <= k < shots@.len() ==> #[trigger] shots@[k] == start[k],
        decreases shots.len() - i,
    {
        let mut p = shots[i];
        let hit = touches_any(&p, boxes);
        p.collided = p.collided || hit;
        shots.set(i, p);
        i = i + 1;
    }
    assert(shots@ =~= start.map_values(spent_on(boxes@)));
}

/// Points of the marked obstacles, held at `u32::MAX`.
pub fn bounty_of(boxes: &Vec<Shape>) -> (r: u32)
    requires
        all_in_flight(boxes@),
    ensures
        r == if bounty(boxes@) > u32::MAX {
            u32::MAX as nat
        } else {
            bounty(boxes@)
        },
{
    let mut acc: u32 = 0;
    let mut i: usize = 0;
    while i < boxes.len()
        invariant
            i <= boxes@.len(),
            all_in_flight(boxes@),
            acc == if bounty(boxes@.subrange(0, i as int)) > u32::MAX {
                u32::MAX as nat
            } else {
                bounty(boxes@.subrange(0, i as int))
            },
        decreases boxes.len() - i,
    {
        assert(boxes@.subrange(0, i + 1).drop_last() =~= boxes@.subrange(0, i as int));
        let b = boxes[i];
        if b.collided {
            let p = crate::entity::points_for(b.size);
            acc = if acc > u32::MAX - p {
                u32::MAX
            } else {
                acc + p
            };
        }
        i = i + 1;
    }
    assert(boxes@.subrange(0, i as int) =~= boxes@);
    acc
}

/// The obstacles that stay: unmarked and not fallen past `height`.
pub fn prune_obstacles(v: &Vec<Shape>, height: i64) -> (r: Vec<Shape>)
    requires
        0 <= height <= MAX_BOUND,
        forall|k: int|
            0 <= k < v@.len() ==> (#[trigger] v@[k]).in_flight() && v@[k].y >= -POSITION_LIMIT
                && -POSITION_LIMIT <= v@[k].x <= POSITION_LIMIT,
    ensures
        r@ == v@.filter(keeps_obstacle(height as int)),
        all_wf(r@),
        none_marked(r@),
        forall|k: int| 0 <= k < r@.len() ==> (#[trigger] r@[k]).y < height + r@[k].size,
{
    let mut kept: Vec<Shape> = Vec::new();
    let mut i: usize = 0;
    while i < v.len()
        invariant
            i <= v@.len(),
            0 <= height <= MAX_BOUND,
            forall|k: int|
                0 <= k < v@.len() ==> (#[trigger] v@[k]).in_flight() && v@[k].y >= -POSITION_LIMIT
                    && -POSITION_LIMIT <= v@[k].x <= POSITION_LIMIT,
            kept@ == v@.subrange(0, i as int).filter(keeps_obstacle(height as int)),
            all_wf(kept@),
            none_marked(kept@),
            forall|k: int| 0 <= k < kept@.len() ==> (#[trigger] kept@[k]).y < height + kept@[k].size,
        decreases v.len() - i,
    {
        assert(v@.subrange(0, i + 1).drop_last() =~= v@.subrange(0, i as int));
        proof { reveal(Seq::filter); }
        let b = v[i];
        if b.y < height + b.size && !b.collided {
            kept.push(b);
        }
        i = i + 1;
    }
    assert(v@.subrange(0, i as int) =~= v@);
    kept
}

/// The projectiles that stay: unmarked and not risen past the top.
pub fn prune_projectiles(v: &Vec<Shape>) -> (r: Vec<Shape>)
    requires
        forall|k: int|
            0 <= k < v@.len() ==> (#[trigger] v@[k]).in_flight() && v@[k].y <= POSITION_LIMIT
                && -POSITION_LIMIT <= v@[k].x <= POSITION_LIMIT,
    ensures
        r@ == v@.filter(keeps_projectile()),
        all_wf(r@),
        none_marked(r@),
{
    let mut kept: Vec<Shape> = Vec::new();
    let mut i: usize = 0;
    while i < v.len()
        invariant
            i <= v@.len(),
            forall|k: int|
                0 <= k < v@.len() ==> (#[trigger] v@[k]).in_flight() && v@[k].y <= POSITION_LIMIT
                    && -POSITION_LIMIT <= v@[k].x <= POSITION_LIMIT,
            kept@ == v@.subrange(0, i as int).filter(keeps_projectile()),
            all_wf(kept@),
            none_marked(kept@),
        decreases v.len() - i,
    {
        assert(v@.subrange(0, i + 1).drop_last() =~= v@.subrange(0, i as int));
        proof { reveal(Seq::filter); }
        let p = v[i];
        if p.y >= -p.size && !p.collided {
            kept.push(p);
        }
        i = i + 1;
    }
    assert(v@.subrange(0, i as int) =~= v@);
    kept
}

} // verus!
