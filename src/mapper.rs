//! Conversion of pointer coordinates on the screen into logical coordinates.
use vstd::prelude::*;

verus! {

/// A point in logical coordinates.
#[derive(Clone, Copy, Debug, PartialEq, Eq, Structural)]
pub struct Point {
    pub x: i64,
    pub y: i64,
}

/// The logical rectangle that the whole viewport shows.
#[derive(Clone, Copy, Debug, PartialEq, Eq, Structural)]
pub struct Rect {
    pub x: i32,
    pub y: i32,
    pub w: i32,
    pub h: i32,
}

/// Why a screen position could not be mapped.
#[derive(Clone, Copy, Debug, PartialEq, Eq, Structural)]
pub enum MapError {
    /// The viewport has a zero or negative width or height.
    InvalidViewport,
}

/// One axis of the rescale: `floor(s / extent * len) + offset`.
pub open spec fn rescale(s: int, extent: int, len: int, offset: int) -> int {
    (s * len) / extent + offset
}

/// A viewport can be mapped from when both of its sides are positive.
pub open spec fn valid_viewport(vw: int, vh: int) -> bool {
    vw > 0 && vh > 0
}

proof fn lemma_rescale_bounds(s: int, extent: int, len: int)
    requires
        extent > 0,
        i32::MIN <= s <= i32::MAX,
        i32::MIN <= len <= i32::MAX,
    ensures
        -0x4000_0000_0000_0000 <= s * len <= 0x4000_0000_0000_0000,
        -0x4000_0000_0000_0000 <= (s * len) / extent <= 0x4000_0000_0000_0000,
        (s * len) / extent <= if s * len >= 0 { s * len } else { 0 },
        (s * len) / extent >= if s * len >= 0 { 0 } else { s * len },
{
    assert(-0x4000_0000_0000_0000 <= s * len <= 0x4000_0000_0000_0000) by (nonlinear_arith)
        requires
            i32::MIN <= s <= i32::MAX,
            i32::MIN <= len <= i32::MAX,
    ;
    if s * len >= 0 {
        vstd::arithmetic::div_mod::lemma_div_pos_is_pos(s * len, extent);
        vstd::arithmetic::div_mod::lemma_div_is_ordered_by_denominator(s * len, 1, extent);
    } else {
        let x = s * len;
        let q = x / extent;
        vstd::arithmetic::div_mod::lemma_div_is_ordered(x, 0, extent);
        vstd::arithmetic::div_mod::lemma_fundamental_div_mod(x, extent);
        assert(extent * q > x - extent);
        assert(extent * x <= x) by (nonlinear_arith)
            requires
                x < 0,
                extent > 0,
        ;
        assert(q >= x) by (nonlinear_arith)
            requires
                extent * q > x - extent,
                extent * x <= x,
                extent > 0,
        ;
    }
}

/// Mapping is linear in the screen position, up to rounding down: the screen
/// origin lands on the rectangle's origin, the far edge of the viewport on the
/// rectangle's far edge, and the offset from the origin of a sum of two
/// positions is the sum of their offsets, or one more.
pub proof fn lemma_rescale_linear(a: int, b: int, extent: int, len: int, offset: int)
    requires
        extent > 0,
    ensures
        rescale(0, extent, len, offset) == offset,
        rescale(extent, extent, len, offset) == offset + len,
        rescale(a + b, extent, len, offset) - offset == (rescale(a, extent, len, offset) - offset)
            + (rescale(b, extent, len, offset) - offset) || rescale(a + b, extent, len, offset)
            - offset == (rescale(a, extent, len, offset) - offset) + (rescale(b, extent, len, offset)
            - offset) + 1,
{
    assert(0 * len == 0);
    vstd::arithmetic::div_mod::lemma_div_multiples_vanish(len, extent);
    assert(extent * len == len * extent) by (nonlinear_arith);
    let x = a * len;
    let y = b * len;
    assert((a + b) * len == x + y) by (nonlinear_arith)
        requires
            x == a * len,
            y == b * len,
    ;
    vstd::arithmetic::div_mod::lemma_fundamental_div_mod(x, extent);
    vstd::arithmetic::div_mod::lemma_fundamental_div_mod(y, extent);
    vstd::arithmetic::div_mod::lemma_fundamental_div_mod(x + y, extent);
    let k = (x + y) / extent - x / extent - y / extent;
    assert(extent * k == x % extent + y % extent - (x + y) % extent) by (nonlinear_arith)
        requires
            k == (x + y) / extent - x / extent - y / extent,
            x == extent * (x / extent) + x % extent,
            y == extent * (y / extent) + y % extent,
            x + y == extent * ((x + y) / extent) + (x + y) % extent,
    ;
    assert(k == 0 || k == 1) by (nonlinear_arith)
        requires
            extent > 0,
            -extent < extent * k < 2 * extent,
    ;
}

fn rescale_axis(s: i32, extent: i32, len: i32, offset: i32) -> (r: i64)
    requires
        extent > 0,
    ensures
        r == rescale(s as int, extent as int, len as int, offset as int),
{
    proof {
        lemma_rescale_bounds(s as int, extent as int, len as int);
    }
    let prod: i64 = (s as i64) * (len as i64);
    let q = prod.checked_div_euclid(extent as i64);
    match q {
        Some(q) => q + offset as i64,
        None => {
            proof {
                assert(false);
            }
            0
        },
    }
}

/// Maps a pointer position `(sx, sy)` on a viewport of `vw` by `vh` onto the
/// logical rectangle `rect`, rounding down on each axis.
pub fn to_logical(sx: i32, sy: i32, vw: i32, vh: i32, rect: Rect) -> (r: Result<Point, MapError>)
    ensures
        valid_viewport(vw as int, vh as int) <==> r is Ok,
        !valid_viewport(vw as int, vh as int) ==> r == Err::<Point, MapError>(
            MapError::InvalidViewport,
        ),
        r is Ok ==> r->Ok_0.x == rescale(sx as int, vw as int, rect.w as int, rect.x as int),
        r is Ok ==> r->Ok_0.y == rescale(sy as int, vh as int, rect.h as int, rect.y as int),
{
    if vw <= 0 || vh <= 0 {
        return Err(MapError::InvalidViewport);
    }
    Ok(Point { x: rescale_axis(sx, vw, rect.w, rect.x), y: rescale_axis(sy, vh, rect.h, rect.y) })
}

} // verus!
