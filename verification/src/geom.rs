//! Screen positions and the saturating arithmetic used when the toolbar is
//! dragged. Coordinates are whole pixels; the host converts the framework's
//! own position type to and from [`Pos`].

use vstd::prelude::*;

verus! {

/// A position on the screen, in whole pixels.
#[derive(Clone, Copy, Debug, PartialEq, Eq, Structural)]
pub struct Pos {
    pub x: i64,
    pub y: i64,
}

/// Mathematical model of a position: unbounded integer coordinates.
pub struct PosView {
    pub x: int,
    pub y: int,
}

impl View for Pos {
    type V = PosView;

    open spec fn view(&self) -> PosView {
        PosView { x: self.x as int, y: self.y as int }
    }
}

/// `v` clipped to the range of `i64`.
pub open spec fn clip_i64(v: int) -> int {
    if v > i64::MAX as int {
        i64::MAX as int
    } else if v < i64::MIN as int {
        i64::MIN as int
    } else {
        v
    }
}

/// Component-wise saturating sum of a position and an offset.
pub open spec fn pos_add_sat(a: PosView, d: PosView) -> PosView {
    PosView { x: clip_i64(a.x + d.x), y: clip_i64(a.y + d.y) }
}

/// Component-wise saturating difference of two positions.
pub open spec fn pos_sub_sat(a: PosView, b: PosView) -> PosView {
    PosView { x: clip_i64(a.x - b.x), y: clip_i64(a.y - b.y) }
}

/// `a + b`, saturating at the bounds of `i64`.
pub fn sat_add_i64(a: i64, b: i64) -> (r: i64)
    ensures
        r as int == clip_i64(a as int + b as int),
{
    if b >= 0 {
        if a <= i64::MAX - b {
            a + b
        } else {
            i64::MAX
        }
    } else {
        if a >= i64::MIN - b {
            a + b
        } else {
            i64::MIN
        }
    }
}

/// `a - b`, saturating at the bounds of `i64`.
pub fn sat_sub_i64(a: i64, b: i64) -> (r: i64)
    ensures
        r as int == clip_i64(a as int - b as int),
{
    if b >= 0 {
        if a >= i64::MIN + b {
            a - b
        } else {
            i64::MIN
        }
    } else {
        if a <= i64::MAX + b {
            a - b
        } else {
            i64::MAX
        }
    }
}

impl Pos {
    /// The origin.
    pub fn zero() -> (r: Pos)
        ensures
            r@ == (PosView { x: 0, y: 0 }),
    {
        Pos { x: 0, y: 0 }
    }

    /// This position moved by `d`, saturating at the bounds of `i64`.
    pub fn add_sat(self, d: Pos) -> (r: Pos)
        ensures
            r@ == pos_add_sat(self@, d@),
    {
        Pos { x: sat_add_i64(self.x, d.x), y: sat_add_i64(self.y, d.y) }
    }

    /// The offset from `b` to this position, saturating at the bounds of `i64`.
    pub fn sub_sat(self, b: Pos) -> (r: Pos)
        ensures
            r@ == pos_sub_sat(self@, b@),
    {
        Pos { x: sat_sub_i64(self.x, b.x), y: sat_sub_i64(self.y, b.y) }
    }
}

} // verus!
