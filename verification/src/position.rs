//! The cursor position accumulated from relative mouse motion.

use vstd::prelude::*;

verus! {

/// Largest horizontal coordinate that the accumulated position can take.
pub const MAX_X: i32 = 3000;

/// Largest vertical coordinate that the accumulated position can take.
pub const MAX_Y: i32 = 1500;

/// `value` brought into the closed interval from `low` to `high`.
pub open spec fn clamp(value: int, low: int, high: int) -> int {
    if value < low {
        low
    } else if value > high {
        high
    } else {
        value
    }
}

/// Whether a coordinate pair lies inside the tracked area.
pub open spec fn in_bounds(p: (int, int)) -> bool {
    0 <= p.0 <= MAX_X && 0 <= p.1 <= MAX_Y
}

/// The position reached from `p` by the motion `(dx, dy)`: each axis is moved
/// and then clamped on its own.
pub open spec fn moved(p: (int, int), dx: int, dy: int) -> (int, int) {
    (clamp(p.0 + dx, 0, MAX_X as int), clamp(p.1 + dy, 0, MAX_Y as int))
}

/// The position reached from the origin by the motions `deltas`, applied in
/// order.
pub open spec fn replayed(deltas: Seq<(int, int)>) -> (int, int)
    decreases deltas.len(),
{
    if deltas.len() == 0 {
        (0, 0)
    } else {
        moved(replayed(deltas.drop_last()), deltas.last().0, deltas.last().1)
    }
}

/// A motion lands inside the tracked area, wherever it starts and however
/// far it goes.
pub proof fn lemma_moved_in_bounds(p: (int, int), dx: int, dy: int)
    ensures
        in_bounds(moved(p, dx, dy)),
{
}

/// From the origin, the position is inside the tracked area after every
/// step of every sequence of motions.
pub proof fn lemma_in_bounds_after_every_step(deltas: Seq<(int, int)>, steps: int)
    requires
        0 <= steps <= deltas.len(),
    ensures
        in_bounds(replayed(deltas.take(steps))),
{
    let prefix = deltas.take(steps);
    if prefix.len() > 0 {
        lemma_moved_in_bounds(replayed(prefix.drop_last()), prefix.last().0, prefix.last().1);
    }
}

/// A cursor position kept inside the tracked area.
///
/// Relative motion is added to it one delta at a time; after every update
/// both coordinates are back inside their bounds, so the stored value itself
/// never leaves the area.
#[derive(Debug, Clone, Copy, PartialEq, Eq)]
pub struct AccumulatedPosition {
    x: i32,
    y: i32,
}

impl View for AccumulatedPosition {
    type V = (int, int);

    closed spec fn view(&self) -> (int, int) {
        (self.x as int, self.y as int)
    }
}

impl Default for AccumulatedPosition {
    /// The initial position, the origin.
    fn default() -> (position: Self)
        ensures
            position@ == (0int, 0int),
    {
        AccumulatedPosition::new()
    }
}

impl AccumulatedPosition {
    /// Holds of every position at all times: it lies inside the tracked
    /// area.
    #[verifier::type_invariant]
    pub open spec fn inside(self) -> bool {
        in_bounds(self@)
    }

    /// The initial position, the origin.
    pub fn new() -> (position: Self)
        ensures
            position@ == (0int, 0int),
    {
        AccumulatedPosition { x: 0, y: 0 }
    }

    /// The horizontal coordinate.
    pub fn x(&self) -> (x: i32)
        ensures
            x == self@.0,
            0 <= x <= MAX_X,
    {
        proof {
            use_type_invariant(self);
        }
        self.x
    }

    /// The vertical coordinate.
    pub fn y(&self) -> (y: i32)
        ensures
            y == self@.1,
            0 <= y <= MAX_Y,
    {
        proof {
            use_type_invariant(self);
        }
        self.y
    }

    /// Adds the motion `(dx, dy)` and clamps each axis to its bounds.
    pub fn apply_delta(&mut self, dx: i32, dy: i32)
        ensures
            final(self)@ == moved(old(self)@, dx as int, dy as int),
            in_bounds(final(self)@),
    {
        proof {
            use_type_invariant(&*self);
        }
        let x: i64 = self.x as i64 + dx as i64;
        let y: i64 = self.y as i64 + dy as i64;
        self.x = if x < 0 {
            0
        } else if x > MAX_X as i64 {
            MAX_X
        } else {
            x as i32
        };
        self.y = if y < 0 {
            0
        } else if y > MAX_Y as i64 {
            MAX_Y
        } else {
            y as i32
        };
    }
}

} // verus!
