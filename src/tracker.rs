//! The position tracker: the state machine that turns a token stream into
//! tool positions, shared by the bounding-box scan and the origin shift.

use vstd::prelude::*;

use crate::token::{has_letter, letters_are, numeric, Token};

verus! {

/// The axis that a token moved.
#[derive(Debug, Clone, Copy, PartialEq, Eq)]
pub enum Axis {
    X,
    Y,
}

/// The tracker's state: distance mode, whether an M block is being skipped,
/// and the tracked position.
pub struct TrackState {
    pub relative: bool,
    pub skip: bool,
    pub x: int,
    pub y: int,
}

/// The state at the start of every stream: absolute mode, not skipping, at
/// the origin.
pub open spec fn initial_state() -> TrackState {
    TrackState { relative: false, skip: false, x: 0, y: 0 }
}

/// The axis that token `t` moves when read in state `s`, if any: a numeric
/// `X` or `Y` field outside an M block.
pub open spec fn update_axis(s: TrackState, t: Token) -> Option<Axis> {
    match t {
        Token::Field(f) => {
            if has_letter(f, 'M') || has_letter(f, 'G') || s.skip || numeric(f.value) is None {
                None
            } else if has_letter(f, 'X') {
                Some(Axis::X)
            } else if has_letter(f, 'Y') {
                Some(Axis::Y)
            } else {
                None
            }
        },
        _ => None,
    }
}

/// The coordinate that moving to `v` gives from `cur` in the given mode.
pub open spec fn moved(relative: bool, cur: int, v: int) -> int {
    if relative {
        cur + v
    } else {
        v
    }
}

/// The state after reading token `t` in state `s`.
pub open spec fn step(s: TrackState, t: Token) -> TrackState {
    match t {
        Token::AbsoluteMode => TrackState { relative: false, skip: s.skip, x: s.x, y: s.y },
        Token::RelativeMode => TrackState { relative: true, skip: s.skip, x: s.x, y: s.y },
        Token::Field(f) => {
            if has_letter(f, 'M') {
                TrackState { relative: s.relative, skip: true, x: s.x, y: s.y }
            } else if has_letter(f, 'G') {
                TrackState { relative: s.relative, skip: false, x: s.x, y: s.y }
            } else {
                match update_axis(s, t) {
                    Some(Axis::X) => TrackState {
                        relative: s.relative,
                        skip: s.skip,
                        x: moved(s.relative, s.x, numeric(f.value).unwrap()),
                        y: s.y,
                    },
                    Some(Axis::Y) => TrackState {
                        relative: s.relative,
                        skip: s.skip,
                        x: s.x,
                        y: moved(s.relative, s.y, numeric(f.value).unwrap()),
                    },
                    None => s,
                }
            }
        },
        Token::Other => s,
    }
}

/// The state after reading the first `n` tokens of `ts`.
pub open spec fn state_at(ts: Seq<Token>, n: int) -> TrackState
    decreases n,
{
    if n <= 0 {
        initial_state()
    } else {
        step(state_at(ts, n - 1), ts[n - 1])
    }
}

/// The bound on a single numeric field, `2^63`.
pub open spec fn field_bound() -> int {
    0x8000_0000_0000_0000
}

/// The largest magnitude that the executable tracker accepts before a step.
pub open spec fn track_limit() -> int {
    0x1_0000_0000_0000_0000_0000_0000
}

/// The executable tracker.
pub struct Tracker {
    pub relative: bool,
    pub skip: bool,
    pub x: i128,
    pub y: i128,
}

impl View for Tracker {
    type V = TrackState;

    open spec fn view(&self) -> TrackState {
        TrackState { relative: self.relative, skip: self.skip, x: self.x as int, y: self.y as int }
    }
}

impl Tracker {
    /// A tracker at the start of a stream.
    pub fn new() -> (r: Tracker)
        ensures
            r@ == initial_state(),
    {
        Tracker { relative: false, skip: false, x: 0, y: 0 }
    }

    /// Reads one token: updates the state and returns the axis moved.
    pub fn step(&mut self, t: &Token) -> (r: Option<Axis>)
        requires
            -track_limit() <= old(self).x <= track_limit(),
            -track_limit() <= old(self).y <= track_limit(),
        ensures
            final(self)@ == step(old(self)@, *t),
            r == update_axis(old(self)@, *t),
            old(self).x - field_bound() <= final(self).x <= old(self).x + field_bound()
                || -field_bound() <= final(self).x <= field_bound(),
            old(self).y - field_bound() <= final(self).y <= old(self).y + field_bound()
                || -field_bound() <= final(self).y <= field_bound(),
    {
        match t {
            Token::AbsoluteMode => {
                self.relative = false;
                None
            },
            Token::RelativeMode => {
                self.relative = true;
                None
            },
            Token::Field(f) => {
                if letters_are(&f.letters, 'M') {
                    self.skip = true;
                    None
                } else if letters_are(&f.letters, 'G') {
                    self.skip = false;
                    None
                } else if self.skip {
                    None
                } else {
                    match f.value.as_number() {
                        None => None,
                        Some(v) => {
                            if letters_are(&f.letters, 'X') {
                                if self.relative {
                                    self.x = self.x + v as i128;
                                } else {
                                    self.x = v as i128;
                                }
                                Some(Axis::X)
                            } else if letters_are(&f.letters, 'Y') {
                                if self.relative {
                                    self.y = self.y + v as i128;
                                } else {
                                    self.y = v as i128;
                                }
                                Some(Axis::Y)
                            } else {
                                None
                            }
                        },
                    }
                }
            },
            Token::Other => None,
        }
    }
}

} // verus!
