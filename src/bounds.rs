//! The bounding-box scan: the extent of every position a stream moves to.

use vstd::prelude::*;

use crate::token::Token;
use crate::tracker::{field_bound, state_at, update_axis, Tracker};

verus! {

/// The most tokens that one pass accepts, so that positions fit in `i128`.
pub const MAX_TOKENS: usize = 0xFFFF_FFFF;

/// An axis-aligned rectangle over unbounded integers.
pub struct Rect {
    pub min_x: int,
    pub min_y: int,
    pub max_x: int,
    pub max_y: int,
}

/// The degenerate rectangle at the origin, where every scan starts.
pub open spec fn origin_rect() -> Rect {
    Rect { min_x: 0, min_y: 0, max_x: 0, max_y: 0 }
}

/// The smallest rectangle holding `r` and the point `(x, y)`.
pub open spec fn extend(r: Rect, x: int, y: int) -> Rect {
    Rect {
        min_x: if x < r.min_x { x } else { r.min_x },
        min_y: if y < r.min_y { y } else { r.min_y },
        max_x: if x > r.max_x { x } else { r.max_x },
        max_y: if y > r.max_y { y } else { r.max_y },
    }
}

/// The box after scanning the first `n` tokens: the origin, extended by the
/// position after every token that moves the tool.
pub open spec fn box_at(ts: Seq<Token>, n: int) -> Rect
    decreases n,
{
    if n <= 0 {
        origin_rect()
    } else if update_axis(state_at(ts, n - 1), ts[n - 1]) is Some {
        extend(box_at(ts, n - 1), state_at(ts, n).x, state_at(ts, n).y)
    } else {
        box_at(ts, n - 1)
    }
}

/// The bounding box of a whole stream.
pub open spec fn bounding_box_of(ts: Seq<Token>) -> Rect {
    box_at(ts, ts.len() as int)
}

/// A point of the executable box.
#[derive(Debug, Clone, Copy, PartialEq, Eq)]
pub struct Point {
    pub x: i128,
    pub y: i128,
}

/// The bounding box that a scan returns: `min <= max` on both axes.
#[derive(Debug, Clone, Copy, PartialEq, Eq)]
pub struct BoundingBox {
    pub min: Point,
    pub max: Point,
}

impl View for BoundingBox {
    type V = Rect;

    open spec fn view(&self) -> Rect {
        Rect {
            min_x: self.min.x as int,
            min_y: self.min.y as int,
            max_x: self.max.x as int,
            max_y: self.max.y as int,
        }
    }
}

/// Scans the stream and returns the box of every position it moves to,
/// together with the origin.
pub fn get_bounding_box(tokens: &Vec<Token>) -> (b: BoundingBox)
    requires
        tokens.len() <= MAX_TOKENS,
    ensures
        b@ == bounding_box_of(tokens@),
        -(tokens.len() * field_bound()) <= b.min.x <= 0 <= b.max.x <= tokens.len() * field_bound(),
        -(tokens.len() * field_bound()) <= b.min.y <= 0 <= b.max.y <= tokens.len() * field_bound(),
{
    let mut tracker = Tracker::new();
    let mut min = Point { x: 0, y: 0 };
    let mut max = Point { x: 0, y: 0 };
    let n = tokens.len();
    let mut i: usize = 0;
    while i < n
        invariant
            n == tokens.len(),
            n <= MAX_TOKENS,
            0 <= i <= n,
            tracker@ == state_at(tokens@, i as int),
            (BoundingBox { min, max })@ == box_at(tokens@, i as int),
            -(i * field_bound()) <= tracker.x <= i * field_bound(),
            -(i * field_bound()) <= tracker.y <= i * field_bound(),
            -(i * field_bound()) <= min.x <= 0 <= max.x <= i * field_bound(),
            -(i * field_bound()) <= min.y <= 0 <= max.y <= i * field_bound(),
        decreases n - i,
    {
        let moved = tracker.step(&tokens[i]);
        if moved.is_some() {
            if tracker.x < min.x {
                min.x = tracker.x;
            }
            if tracker.y < min.y {
                min.y = tracker.y;
            }
            if tracker.x > max.x {
                max.x = tracker.x;
            }
            if tracker.y > max.y {
                max.y = tracker.y;
            }
        }
        i = i + 1;
    }
    BoundingBox { min, max }
}

} // verus!
