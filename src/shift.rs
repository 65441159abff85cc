//! The origin shift: rewrites a stream in place so that its bounding box
//! starts at a chosen point.

use vstd::prelude::*;

use crate::bounds::{bounding_box_of, box_at, get_bounding_box, MAX_TOKENS};
use crate::token::{with_number, Field, Token, Value};
use crate::tracker::{field_bound, state_at, update_axis, Axis, Tracker};

verus! {

/// Shifting by `(ox, oy)` maps every tracked coordinate into `i64`: the box,
/// moved to start at the origin, ends within range.
pub open spec fn shift_in_range(ts: Seq<Token>, ox: int, oy: int) -> bool {
    let b = bounding_box_of(ts);
    ox + (b.max_x - b.min_x) <= i64::MAX && oy + (b.max_y - b.min_y) <= i64::MAX
}

/// The value written into the `i`-th token of `ts` when the stream is shifted
/// to start at `(ox, oy)`: the position after that token, moved by the
/// offset from the box's minimum to the target.
pub open spec fn shifted_coordinate(ts: Seq<Token>, i: int, ox: int, oy: int) -> int {
    let b = bounding_box_of(ts);
    let after = state_at(ts, i + 1);
    match update_axis(state_at(ts, i), ts[i]) {
        Some(Axis::X) => after.x + (ox - b.min_x),
        _ => after.y + (oy - b.min_y),
    }
}

/// The `i`-th token of `ts` after shifting the stream to start at `(ox, oy)`:
/// a field that moves the tool carries its shifted coordinate; every other
/// token is unchanged.
pub open spec fn shifted_token(ts: Seq<Token>, i: int, ox: int, oy: int) -> Token {
    if update_axis(state_at(ts, i), ts[i]) is Some {
        with_number(ts[i], shifted_coordinate(ts, i, ox, oy) as i64)
    } else {
        ts[i]
    }
}

/// The box of the first `j` tokens lies within the box of the first `k`.
pub proof fn lemma_box_grows(ts: Seq<Token>, j: int, k: int)
    requires
        0 <= j <= k,
    ensures
        box_at(ts, k).min_x <= box_at(ts, j).min_x,
        box_at(ts, k).min_y <= box_at(ts, j).min_y,
        box_at(ts, k).max_x >= box_at(ts, j).max_x,
        box_at(ts, k).max_y >= box_at(ts, j).max_y,
    decreases k - j,
{
    if j < k {
        lemma_box_grows(ts, j, k - 1);
    }
}

/// Every position that a token moves the tool to lies in the stream's box.
pub proof fn lemma_moves_inside(ts: Seq<Token>, i: int)
    requires
        0 <= i < ts.len(),
        update_axis(state_at(ts, i), ts[i]) is Some,
    ensures
        bounding_box_of(ts).min_x <= state_at(ts, i + 1).x <= bounding_box_of(ts).max_x,
        bounding_box_of(ts).min_y <= state_at(ts, i + 1).y <= bounding_box_of(ts).max_y,
{
    lemma_box_grows(ts, i + 1, ts.len() as int);
}

/// Moves every position of the stream so that its bounding box starts at
/// `origin`. Fields that move the tool get their new coordinate as a number;
/// all other tokens stay as they are.
pub fn set_origin(tokens: &mut Vec<Token>, origin: [i64; 2])
    requires
        old(tokens).len() <= MAX_TOKENS,
        shift_in_range(old(tokens)@, origin@[0] as int, origin@[1] as int),
    ensures
        final(tokens)@.len() == old(tokens)@.len(),
        forall|i: int|
            0 <= i < old(tokens)@.len() ==> final(tokens)@[i] == shifted_token(
                old(tokens)@,
                i,
                origin@[0] as int,
                origin@[1] as int,
            ),
{
    let ghost ts = tokens@;
    let ghost ox = origin@[0] as int;
    let ghost oy = origin@[1] as int;
    let b = get_bounding_box(tokens);
    let off_x: i128 = origin[0] as i128 - b.min.x;
    let off_y: i128 = origin[1] as i128 - b.min.y;
    let mut tracker = Tracker::new();
    let n = tokens.len();
    let mut i: usize = 0;
    while i < n
        invariant
            n == ts.len(),
            n <= MAX_TOKENS,
            0 <= i <= n,
            tokens@.len() == n,
            b@ == bounding_box_of(ts),
            off_x == ox - b.min.x,
            off_y == oy - b.min.y,
            ox == origin@[0],
            oy == origin@[1],
            shift_in_range(ts, ox, oy),
            -(n * field_bound()) <= b.min.x <= 0,
            -(n * field_bound()) <= b.min.y <= 0,
            tracker@ == state_at(ts, i as int),
            -(i * field_bound()) <= tracker.x <= i * field_bound(),
            -(i * field_bound()) <= tracker.y <= i * field_bound(),
            forall|j: int| 0 <= j < i ==> tokens@[j] == shifted_token(ts, j, ox, oy),
            forall|j: int| i <= j < n ==> tokens@[j] == ts[j],
        decreases n - i,
    {
        let moved = tracker.step(&tokens[i]);
        match moved {
            Some(axis) => {
                proof {
                    lemma_moves_inside(ts, i as int);
                }
                let v: i64 = match axis {
                    Axis::X => (tracker.x + off_x) as i64,
                    Axis::Y => (tracker.y + off_y) as i64,
                };
                if let Token::Field(f) = &tokens[i] {
                    let letters = f.letters.clone();
                    tokens[i] = Token::Field(Field { letters, value: Value::Number(v) });
                }
            },
            None => {},
        }
        i = i + 1;
    }
}

/// Post-processing settings: the point at which a stream's box should start.
///
/// Kept for older callers; shifting the origin belongs before post-processing.
#[derive(Debug, Clone, Copy, PartialEq, Eq, Default)]
pub struct PostprocessConfig {
    pub origin: [i64; 2],
}

impl PostprocessConfig {
    /// Applies the configured origin shift to `tokens`.
    pub fn apply(&self, tokens: &mut Vec<Token>)
        requires
            old(tokens).len() <= MAX_TOKENS,
            shift_in_range(old(tokens)@, self.origin@[0] as int, self.origin@[1] as int),
        ensures
            final(tokens)@.len() == old(tokens)@.len(),
            forall|i: int|
                0 <= i < old(tokens)@.len() ==> final(tokens)@[i] == shifted_token(
                    old(tokens)@,
                    i,
                    self.origin@[0] as int,
                    self.origin@[1] as int,
                ),
    {
        set_origin(tokens, self.origin);
    }
}

} // verus!
