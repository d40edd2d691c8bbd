//! The turtle's motion state: position, heading, speed, and the walk loop
//! that advances the position one unit step at a time.

use vstd::prelude::*;

verus! {

/// Logical width of the render surface, in plane units.
pub const SURFACE_WIDTH: i64 = 800;

/// Logical height of the render surface, in plane units.
pub const SURFACE_HEIGHT: i64 = 600;

/// Side length of the square a renderer draws for the turtle.
pub const TURTLE_SIZE: i64 = 20;

/// A cardinal direction, as named by a `rotation` instruction.
#[derive(Clone, Copy, PartialEq, Eq, Structural, Debug)]
pub enum Direction {
    North,
    South,
    East,
    West,
}

/// The turtle's current unit direction of movement. Each component is one of
/// -1, 0, 1, and at most one axis is non-zero at a time (cardinal only).
#[derive(Clone, Copy, PartialEq, Eq, Structural, Debug)]
pub struct Heading {
    pub dx: i64,
    pub dy: i64,
}

/// A point on the plane. Positions are never clamped to the surface by the
/// core: out-of-bounds values are valid state, and clipping is a renderer
/// concern. The coordinates only saturate at the representable extremes.
#[derive(Clone, Copy, PartialEq, Eq, Structural, Debug)]
pub struct Position {
    pub x: i64,
    pub y: i64,
}

/// The whole motion state of the turtle: where it is, where it points, how
/// far one step carries it, and whether the instruction sequence is still
/// waiting to be executed.
#[derive(Clone, Copy, PartialEq, Eq, Structural, Debug)]
pub struct MotionState {
    pub pos: Position,
    pub heading: Heading,
    pub speed: i64,
    pub pending: bool,
}

impl Heading {
    /// A heading is well formed when it is a cardinal unit vector or zero.
    pub open spec fn wf(self) -> bool {
        &&& -1 <= self.dx <= 1
        &&& -1 <= self.dy <= 1
        &&& self.dx == 0 || self.dy == 0
    }

    /// The zero heading: the turtle moves nowhere on a walk.
    pub open spec fn zero() -> Heading {
        Heading { dx: 0i64, dy: 0i64 }
    }
}

/// The unit vector assigned to each cardinal direction. The y axis grows
/// downward, as on a window surface, so north is negative y.
pub open spec fn dir_vec(d: Direction) -> Heading {
    match d {
        Direction::North => Heading { dx: 0i64, dy: -1i64 },
        Direction::South => Heading { dx: 0i64, dy: 1i64 },
        Direction::East => Heading { dx: 1i64, dy: 0i64 },
        Direction::West => Heading { dx: -1i64, dy: 0i64 },
    }
}

/// Clamps a mathematical value to the range of `i64`.
pub open spec fn sat_i64(v: int) -> int {
    if v < i64::MIN {
        i64::MIN as int
    } else if v > i64::MAX {
        i64::MAX as int
    } else {
        v
    }
}

/// The position after one unit step in heading `h` at the given speed, each
/// coordinate saturating at the range of `i64`.
pub open spec fn step_pos(p: Position, h: Heading, speed: int) -> Position {
    Position {
        x: sat_i64(p.x + h.dx * speed) as i64,
        y: sat_i64(p.y + h.dy * speed) as i64,
    }
}

/// The position after `k` unit steps in heading `h` at the given speed.
pub open spec fn pos_after(p: Position, h: Heading, speed: int, k: nat) -> Position
    decreases k,
{
    if k == 0 {
        p
    } else {
        step_pos(pos_after(p, h, speed, (k - 1) as nat), h, speed)
    }
}

/// The render snapshots emitted while taking `k` unit steps from `p`: one
/// per step, each taken after the position has moved.
pub open spec fn walk_frames(p: Position, h: Heading, speed: int, k: nat) -> Seq<Position>
    decreases k,
{
    if k == 0 {
        Seq::empty()
    } else {
        walk_frames(p, h, speed, (k - 1) as nat).push(pos_after(p, h, speed, k))
    }
}

/// How many unit steps a `walk n` instruction performs. The count denotes
/// frames advanced, the first frame being the already-drawn starting
/// position of the segment, so `n` steps walk `n - 1` units; `walk 0` and
/// `walk 1` both move nothing.
pub open spec fn walk_steps(n: u64) -> nat {
    if n == 0 {
        0
    } else {
        (n - 1) as nat
    }
}

/// Adds a unit increment to a coordinate, saturating at the range of `i64`.
fn sat_add(a: i64, d: i64) -> (r: i64)
    requires
        -1 <= d <= 1,
    ensures
        r as int == sat_i64(a + d),
{
    if d == 1 {
        if a < i64::MAX {
            a + 1
        } else {
            a
        }
    } else if d == -1 {
        if a > i64::MIN {
            a - 1
        } else {
            a
        }
    } else {
        a
    }
}

impl MotionState {
    /// A state is well formed when its heading is cardinal and its step
    /// speed is the fixed scalar one.
    pub open spec fn wf(self) -> bool {
        &&& self.heading.wf()
        &&& self.speed == 1
    }

    /// The initial state: turtle at the surface center, zero heading, unit
    /// speed, with the instruction sequence still pending.
    pub fn new() -> (s: MotionState)
        ensures
            s.wf(),
            s.pos.x == SURFACE_WIDTH / 2,
            s.pos.y == SURFACE_HEIGHT / 2,
            s.heading == Heading::zero(),
            s.speed == 1,
            s.pending,
    {
        MotionState {
            pos: Position { x: SURFACE_WIDTH / 2, y: SURFACE_HEIGHT / 2 },
            heading: Heading { dx: 0, dy: 0 },
            speed: 1,
            pending: true,
        }
    }

    /// Points the turtle at direction `d`. The new heading is exactly the
    /// direction's unit vector, whatever the heading was before: a rotation
    /// fully overwrites the heading and never accumulates with it.
    pub fn rotate(&mut self, d: Direction)
        requires
            old(self).wf(),
        ensures
            final(self).wf(),
            final(self).heading == dir_vec(d),
            final(self).pos == old(self).pos,
            final(self).speed == old(self).speed,
            final(self).pending == old(self).pending,
    {
        match d {
            Direction::North => self.heading = Heading { dx: 0, dy: -1 },
            Direction::South => self.heading = Heading { dx: 0, dy: 1 },
            Direction::East => self.heading = Heading { dx: 1, dy: 0 },
            Direction::West => self.heading = Heading { dx: -1, dy: 0 },
        }
    }

    /// Walks `n - 1` unit steps in the current heading (none when `n` is 0
    /// or 1), pushing one render snapshot onto `frames` after every step,
    /// then resets the heading to zero regardless of whether anything moved.
    /// A count of 1 therefore changes nothing and emits no frame.
    pub fn walk(&mut self, n: u64, frames: &mut Vec<Position>)
        requires
            old(self).wf(),
        ensures
            final(self).wf(),
            final(self).pos == pos_after(
                old(self).pos,
                old(self).heading,
                old(self).speed as int,
                walk_steps(n),
            ),
            final(self).heading == Heading::zero(),
            final(self).speed == old(self).speed,
            final(self).pending == old(self).pending,
            final(frames)@ == old(frames)@ + walk_frames(
                old(self).pos,
                old(self).heading,
                old(self).speed as int,
                walk_steps(n),
            ),
    {
        let ghost p0 = self.pos;
        let ghost h0 = self.heading;
        let mut i: u64 = 1;
        while i < n
            invariant
                old(self).wf(),
                self.heading == h0,
                self.speed == old(self).speed,
                self.pending == old(self).pending,
                h0 == old(self).heading,
                p0 == old(self).pos,
                1 <= i,
                n >= 1 ==> i <= n,
                n == 0 ==> i == 1,
                self.pos == pos_after(p0, h0, self.speed as int, (i - 1) as nat),
                frames@ == old(frames)@ + walk_frames(p0, h0, self.speed as int, (i - 1) as nat),
            decreases n - i,
        {
            let dx = self.heading.dx * self.speed;
            let dy = self.heading.dy * self.speed;
            self.pos.x = sat_add(self.pos.x, dx);
            self.pos.y = sat_add(self.pos.y, dy);
            frames.push(self.pos);
            proof {
                assert(self.pos == step_pos(
                    pos_after(p0, h0, self.speed as int, (i - 1) as nat),
                    h0,
                    self.speed as int,
                ));
                assert(self.pos == pos_after(p0, h0, self.speed as int, i as nat));
            }
            i = i + 1;
        }
        self.heading = Heading { dx: 0, dy: 0 };
        proof {
            assert((i - 1) as nat == walk_steps(n));
        }
    }
}

} // verus!
