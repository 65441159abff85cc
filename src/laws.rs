//! Properties of the scan and the shift, proved over the specification.

use vstd::prelude::*;

use crate::bounds::{bounding_box_of, box_at, origin_rect};
use crate::shift::{
    lemma_box_grows, lemma_moves_inside, shift_in_range, shifted_coordinate, shifted_token,
};
use crate::token::{has_letter, numeric, Token};
use crate::tracker::{state_at, update_axis, Axis};

verus! {

/// The token is a field lettered `X` or `Y`.
pub open spec fn is_axis_field(t: Token) -> bool {
    match t {
        Token::Field(f) => has_letter(f, 'X') || has_letter(f, 'Y'),
        _ => false,
    }
}

/// The number that a token carries, if it is a field with a numeric value.
pub open spec fn field_number(t: Token) -> Option<int> {
    match t {
        Token::Field(f) => numeric(f.value),
        _ => None,
    }
}

/// Scanning is a function of the stream alone: two scans of equal streams
/// give equal boxes.
pub proof fn law_scan_deterministic(a: Seq<Token>, b: Seq<Token>)
    requires
        a == b,
    ensures
        bounding_box_of(a) == bounding_box_of(b),
{
}

proof fn lemma_no_motion_box(ts: Seq<Token>, n: int)
    requires
        0 <= n <= ts.len(),
        forall|i: int| 0 <= i < ts.len() ==> !is_axis_field(#[trigger] ts[i]),
    ensures
        box_at(ts, n) == origin_rect(),
    decreases n,
{
    if n > 0 {
        lemma_no_motion_box(ts, n - 1);
        assert(!is_axis_field(ts[n - 1]));
    }
}

/// A stream without `X` or `Y` fields has the degenerate box at the origin,
/// and shifting it to the origin leaves every token as it is.
pub proof fn law_no_motion(ts: Seq<Token>)
    requires
        forall|i: int| 0 <= i < ts.len() ==> !is_axis_field(#[trigger] ts[i]),
    ensures
        bounding_box_of(ts) == origin_rect(),
        forall|i: int| 0 <= i < ts.len() ==> #[trigger] shifted_token(ts, i, 0, 0) == ts[i],
{
    lemma_no_motion_box(ts, ts.len() as int);
    assert forall|i: int| 0 <= i < ts.len() implies #[trigger] shifted_token(ts, i, 0, 0) == ts[i] by {
        assert(!is_axis_field(ts[i]));
    }
}

/// An `X` field whose value is not a number moves nothing: the tracked
/// state and the box are those before it, and the shift leaves it as it is.
pub proof fn law_non_numeric_x(ts: Seq<Token>, i: int, ox: int, oy: int)
    requires
        0 <= i < ts.len(),
        ts[i] is Field,
        has_letter(ts[i]->Field_0, 'X'),
        numeric(ts[i]->Field_0.value) is None,
    ensures
        state_at(ts, i + 1) == state_at(ts, i),
        box_at(ts, i + 1) == box_at(ts, i),
        shifted_token(ts, i, ox, oy) == ts[i],
{
    assert(!has_letter(ts[i]->Field_0, 'M')) by {
        assert(ts[i]->Field_0.letters@[0] == 'X');
    }
    assert(!has_letter(ts[i]->Field_0, 'G')) by {
        assert(ts[i]->Field_0.letters@[0] == 'X');
    }
}

proof fn lemma_x_kept(ts: Seq<Token>, from: int, to: int)
    requires
        0 <= from <= to <= ts.len(),
        forall|k: int| from <= k < to ==> update_axis(state_at(ts, k), #[trigger] ts[k]) != Some(
            Axis::X,
        ),
    ensures
        state_at(ts, to).x == state_at(ts, from).x,
    decreases to - from,
{
    if from < to {
        lemma_x_kept(ts, from, to - 1);
        assert(update_axis(state_at(ts, to - 1), ts[to - 1]) != Some(Axis::X));
    }
}

/// Between two consecutive `X` moves, the second read in relative mode, the
/// shift writes values that differ by exactly the second field's original
/// delta: only the frame moves, the distance travelled is kept.
pub proof fn law_shift_keeps_relative_delta(ts: Seq<Token>, i: int, j: int, ox: int, oy: int)
    requires
        i64::MIN <= ox,
        i64::MIN <= oy,
        0 <= i < j < ts.len(),
        shift_in_range(ts, ox, oy),
        update_axis(state_at(ts, i), ts[i]) == Some(Axis::X),
        update_axis(state_at(ts, j), ts[j]) == Some(Axis::X),
        forall|k: int| i < k < j ==> update_axis(state_at(ts, k), #[trigger] ts[k]) != Some(Axis::X),
        state_at(ts, j).relative,
    ensures
        field_number(shifted_token(ts, j, ox, oy)) is Some,
        field_number(shifted_token(ts, i, ox, oy)) is Some,
        field_number(shifted_token(ts, j, ox, oy))->0 - field_number(shifted_token(ts, i, ox, oy))->0
            == field_number(ts[j])->0,
        field_number(ts[j])->0 == state_at(ts, j + 1).x - state_at(ts, i + 1).x,
{
    lemma_x_kept(ts, i + 1, j);
    lemma_moves_inside(ts, i);
    lemma_moves_inside(ts, j);
    let b = bounding_box_of(ts);
    assert(i64::MIN <= shifted_coordinate(ts, i, ox, oy) <= i64::MAX);
    assert(i64::MIN <= shifted_coordinate(ts, j, ox, oy) <= i64::MAX);
}

/// The stream as the shift leaves it.
pub open spec fn shifted_stream(ts: Seq<Token>, ox: int, oy: int) -> Seq<Token> {
    Seq::new(ts.len(), |i: int| shifted_token(ts, i, ox, oy))
}

/// Some token among the first `k` moves the tool along `axis`.
pub open spec fn axis_set(ts: Seq<Token>, k: int, axis: Axis) -> bool
    decreases k,
{
    if k <= 0 {
        false
    } else {
        axis_set(ts, k - 1, axis) || update_axis(state_at(ts, k - 1), ts[k - 1]) == Some(axis)
    }
}

/// Every move of the stream is read in absolute distance mode.
pub open spec fn all_moves_absolute(ts: Seq<Token>) -> bool {
    forall|i: int|
        0 <= i < ts.len() && (update_axis(state_at(ts, i), #[trigger] ts[i]) is Some)
            ==> !state_at(ts, i).relative
}

proof fn lemma_rescan_tracks(ts: Seq<Token>, ox: int, oy: int, k: int)
    requires
        0 <= k <= ts.len(),
        i64::MIN <= ox,
        i64::MIN <= oy,
        shift_in_range(ts, ox, oy),
        all_moves_absolute(ts),
    ensures
        state_at(shifted_stream(ts, ox, oy), k).relative == state_at(ts, k).relative,
        state_at(shifted_stream(ts, ox, oy), k).skip == state_at(ts, k).skip,
        state_at(shifted_stream(ts, ox, oy), k).x == if axis_set(ts, k, Axis::X) {
            state_at(ts, k).x + (ox - bounding_box_of(ts).min_x)
        } else {
            0
        },
        state_at(shifted_stream(ts, ox, oy), k).y == if axis_set(ts, k, Axis::Y) {
            state_at(ts, k).y + (oy - bounding_box_of(ts).min_y)
        } else {
            0
        },
        !axis_set(ts, k, Axis::X) ==> state_at(ts, k).x == 0,
        !axis_set(ts, k, Axis::Y) ==> state_at(ts, k).y == 0,
        k < ts.len() ==> update_axis(state_at(shifted_stream(ts, ox, oy), k), shifted_stream(ts, ox, oy)[k])
            == update_axis(state_at(ts, k), ts[k]),
    decreases k,
{
    let ss = shifted_stream(ts, ox, oy);
    if k > 0 {
        lemma_rescan_tracks(ts, ox, oy, k - 1);
        let i = k - 1;
        assert(ss[i] == shifted_token(ts, i, ox, oy));
        if update_axis(state_at(ts, i), ts[i]) is Some {
            lemma_moves_inside(ts, i);
            assert(!state_at(ts, i).relative);
            let f = ts[i]->Field_0;
            assert(!has_letter(f, 'M') && !has_letter(f, 'G'));
        }
    }
    if k < ts.len() {
        assert(ss[k] == shifted_token(ts, k, ox, oy));
        if update_axis(state_at(ts, k), ts[k]) is Some {
            lemma_moves_inside(ts, k);
            let f = ts[k]->Field_0;
            assert(!has_letter(f, 'M') && !has_letter(f, 'G'));
        }
    }
}

proof fn lemma_rescan_above(ts: Seq<Token>, ox: int, oy: int, k: int)
    requires
        0 <= k <= ts.len(),
        i64::MIN <= ox <= 0,
        i64::MIN <= oy <= 0,
        shift_in_range(ts, ox, oy),
        all_moves_absolute(ts),
    ensures
        box_at(shifted_stream(ts, ox, oy), k).min_x >= ox,
        box_at(shifted_stream(ts, ox, oy), k).min_y >= oy,
    decreases k,
{
    if k > 0 {
        lemma_rescan_above(ts, ox, oy, k - 1);
        lemma_rescan_tracks(ts, ox, oy, k - 1);
        lemma_rescan_tracks(ts, ox, oy, k);
        if update_axis(state_at(ts, k - 1), ts[k - 1]) is Some {
            lemma_moves_inside(ts, k - 1);
        }
    }
}

/// Shifting a stream whose moves are all absolute to a target at or below
/// the origin puts the rescanned box's minimum exactly on the target, on
/// each axis whose target is the origin itself or whose box edge is reached
/// by a move along that axis.
pub proof fn law_shift_reaches_origin(ts: Seq<Token>, ox: int, oy: int)
    requires
        i64::MIN <= ox <= 0,
        i64::MIN <= oy <= 0,
        shift_in_range(ts, ox, oy),
        all_moves_absolute(ts),
        ox == 0 || exists|i: int|
            0 <= i < ts.len() && update_axis(state_at(ts, i), #[trigger] ts[i]) == Some(Axis::X)
                && state_at(ts, i + 1).x == bounding_box_of(ts).min_x,
        oy == 0 || exists|i: int|
            0 <= i < ts.len() && update_axis(state_at(ts, i), #[trigger] ts[i]) == Some(Axis::Y)
                && state_at(ts, i + 1).y == bounding_box_of(ts).min_y,
    ensures
        bounding_box_of(shifted_stream(ts, ox, oy)).min_x == ox,
        bounding_box_of(shifted_stream(ts, ox, oy)).min_y == oy,
{
    let ss = shifted_stream(ts, ox, oy);
    let n = ts.len() as int;
    lemma_rescan_above(ts, ox, oy, n);
    lemma_box_grows(ss, 0, n);
    if ox != 0 {
        let i = choose|i: int|
            0 <= i < ts.len() && update_axis(state_at(ts, i), #[trigger] ts[i]) == Some(Axis::X)
                && state_at(ts, i + 1).x == bounding_box_of(ts).min_x;
        lemma_rescan_tracks(ts, ox, oy, i);
        lemma_rescan_tracks(ts, ox, oy, i + 1);
        lemma_box_grows(ss, i + 1, n);
    }
    if oy != 0 {
        let i = choose|i: int|
            0 <= i < ts.len() && update_axis(state_at(ts, i), #[trigger] ts[i]) == Some(Axis::Y)
                && state_at(ts, i + 1).y == bounding_box_of(ts).min_y;
        lemma_rescan_tracks(ts, ox, oy, i);
        lemma_rescan_tracks(ts, ox, oy, i + 1);
        lemma_box_grows(ss, i + 1, n);
    }
}

} // verus!
