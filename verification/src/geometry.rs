use vstd::prelude::*;
use vstd::arithmetic::div_mod::{lemma_div_is_ordered, lemma_multiply_divide_lt};
use vstd::arithmetic::mul::lemma_mul_inequality;

verus! {

/// Every coordinate and dimension the renderer works with is kept within
/// this bound so that the layout arithmetic provably fits in `i32`.
pub const COORD_LIMIT: u32 = 536870912;

/// An axis-aligned rectangle in pixel coordinates: the position of its
/// top-left corner and its width and height.
#[derive(Clone, Copy, PartialEq, Eq, Structural, Debug)]
pub struct Rect {
    pub x: i32,
    pub y: i32,
    pub width: u32,
    pub height: u32,
}

impl Rect {
    /// The rectangle's coordinates and dimensions are small enough that
    /// layout arithmetic over it cannot overflow `i32`.
    pub open spec fn wf(self) -> bool {
        &&& -(COORD_LIMIT as int) <= self.x <= COORD_LIMIT as int
        &&& -(COORD_LIMIT as int) <= self.y <= COORD_LIMIT as int
        &&& self.width <= COORD_LIMIT
        &&& self.height <= COORD_LIMIT
    }

    /// The half-open point set covered by the rectangle:
    /// `[x, x + width) x [y, y + height)`.
    pub open spec fn spec_contains(self, px: int, py: int) -> bool {
        &&& self.x <= px < self.x + self.width
        &&& self.y <= py < self.y + self.height
    }

    pub fn new(x: i32, y: i32, width: u32, height: u32) -> (r: Rect)
        ensures
            r == (Rect { x, y, width, height }),
    {
        Rect { x, y, width, height }
    }

    /// Whether the point lies inside the rectangle; the left and top edges
    /// are inside, the right and bottom edges are not.
    pub fn contains_point(&self, px: i32, py: i32) -> (b: bool)
        ensures
            b == self.spec_contains(px as int, py as int),
    {
        let inside_x = px as i64 >= self.x as i64 && (px as i64) < self.x as i64 + self.width as i64;
        let inside_y = py as i64 >= self.y as i64 && (py as i64) < self.y as i64 + self.height as i64;
        inside_x && inside_y
    }
}

/// The dimensions a `rect_width` by `rect_height` surface takes after
/// shrink-to-fit into a `cons_width` by `cons_height` region: if either
/// dimension exceeds the region, both are scaled down by the larger of the
/// two overflow ratios, so the aspect ratio is kept up to integer rounding;
/// a surface that already fits, or a region with a zero dimension, leaves
/// the surface unscaled.
pub open spec fn spec_constrained_dims(rw: nat, rh: nat, cw: nat, ch: nat) -> (nat, nat) {
    if cw == 0 || ch == 0 {
        (rw, rh)
    } else if rw > cw || rh > ch {
        if rw * ch > rh * cw {
            (cw, rh * cw / rw)
        } else {
            (rw * ch / rh, ch)
        }
    } else {
        (rw, rh)
    }
}

/// Scale a `rect_width` by `rect_height` surface down, keeping its aspect
/// ratio, until it fits within `cons_width` by `cons_height`; a surface that
/// already fits is returned unscaled. The result sits at the origin.
pub fn constrain_rect(rect_width: u32, rect_height: u32, cons_width: u32, cons_height: u32) -> (r:
    Rect)
    ensures
        r.x == 0 && r.y == 0,
        (r.width as nat, r.height as nat) == spec_constrained_dims(
            rect_width as nat,
            rect_height as nat,
            cons_width as nat,
            cons_height as nat,
        ),
{
    let rw = rect_width as u64;
    let rh = rect_height as u64;
    let cw = cons_width as u64;
    let ch = cons_height as u64;
    if cons_width == 0 || cons_height == 0 {
        Rect::new(0, 0, rect_width, rect_height)
    } else if rect_width > cons_width || rect_height > cons_height {
        proof {
            lemma_mul_inequality(rw as int, u32::MAX as int, ch as int);
            lemma_mul_inequality(rh as int, u32::MAX as int, cw as int);
            lemma_mul_inequality(ch as int, u32::MAX as int, u32::MAX as int);
            lemma_mul_inequality(cw as int, u32::MAX as int, u32::MAX as int);
        }
        if rw * ch > rh * cw {
            proof {
                lemma_constrain_width_bound(rw as nat, rh as nat, cw as nat, ch as nat);
            }
            let h = rh * cw / rw;
            Rect::new(0, 0, cons_width, h as u32)
        } else {
            proof {
                lemma_constrain_height_bound(rw as nat, rh as nat, cw as nat, ch as nat);
            }
            let w = rw * ch / rh;
            Rect::new(0, 0, w as u32, cons_height)
        }
    } else {
        Rect::new(0, 0, rect_width, rect_height)
    }
}

/// In the branch that pins the width to the region, the surface is strictly
/// wider than the region, so the scaled height stays below the original.
proof fn lemma_constrain_width_bound(rw: nat, rh: nat, cw: nat, ch: nat)
    requires
        cw > 0,
        ch > 0,
        rw > cw || rh > ch,
        rw * ch > rh * cw,
    ensures
        rw > cw,
        rh * cw / rw < rh || rh == 0,
        rh * cw / rw <= ch,
{
    if rw <= cw {
        // then the outer condition forces rh > ch, contradicting the ratio test
        lemma_mul_inequality(rw as int, cw as int, ch as int);
        lemma_mul_inequality(ch as int + 1, rh as int, cw as int);
        assert(rw * ch <= cw * ch);
        assert(cw * ch < cw * rh) by (nonlinear_arith)
            requires cw > 0 && ch < rh;
        assert(false);
    }
    assert(rw > 0);
    if rh > 0 {
        assert(rh * cw < rw * rh) by (nonlinear_arith)
            requires cw < rw && rh > 0;
        lemma_multiply_divide_lt(rh * cw as int, rw as int, rh as int);
    }
    // rh * cw <= rw * ch - 1 < rw * (ch + 1), so the quotient is at most ch
    lemma_div_is_ordered(rh * cw as int, rw * ch as int, rw as int);
    assert((rw * ch) / rw == ch) by (nonlinear_arith)
        requires rw > 0;
}

/// In the branch that pins the height to the region, the surface is strictly
/// taller than the region, so the scaled width stays below the original.
proof fn lemma_constrain_height_bound(rw: nat, rh: nat, cw: nat, ch: nat)
    requires
        cw > 0,
        ch > 0,
        rw > cw || rh > ch,
        rw * ch <= rh * cw,
    ensures
        rh > ch,
        rw * ch / rh < rw || rw == 0,
        rw * ch / rh <= cw,
{
    if rh <= ch {
        // then the outer condition forces rw > cw, making the width ratio
        // strictly larger than the height ratio
        lemma_mul_inequality(rh as int, ch as int, cw as int);
        lemma_mul_inequality(cw as int + 1, rw as int, ch as int);
        assert(rh * cw <= ch * cw);
        assert(ch * cw < ch * rw) by (nonlinear_arith)
            requires ch > 0 && cw < rw;
        assert(false);
    }
    assert(rh > 0);
    if rw > 0 {
        assert(rw * ch < rh * rw) by (nonlinear_arith)
            requires ch < rh && rw > 0;
        lemma_multiply_divide_lt(rw * ch as int, rh as int, rw as int);
    }
    lemma_div_is_ordered(rw * ch as int, rh * cw as int, rh as int);
    assert((rh * cw) / rh == cw) by (nonlinear_arith)
        requires rh > 0;
}

/// Shrink-to-fit scales a surface down, never up: when either dimension of
/// the surface exceeds a positive clip region, both resulting dimensions fit
/// within the region, the aspect ratio is kept up to one unit of integer
/// rounding on either side, and a surface that already fits comes back
/// unchanged.
pub proof fn lemma_shrink_to_fit(rw: nat, rh: nat, cw: nat, ch: nat)
    requires
        cw > 0,
        ch > 0,
    ensures
        ({
            let (w, h) = spec_constrained_dims(rw, rh, cw, ch);
            &&& (rw > cw || rh > ch) ==> w <= cw && h <= ch
            &&& (rw <= cw && rh <= ch) ==> w == rw && h == rh
            &&& w <= rw && h <= rh
            &&& (rw > cw || rh > ch) ==> w * rh <= h * rw + rw && h * rw <= w * rh + rh
        }),
{
    if rw > cw || rh > ch {
        if rw * ch > rh * cw {
            lemma_constrain_width_bound(rw, rh, cw, ch);
            let h = rh * cw / rw;
            vstd::arithmetic::div_mod::lemma_fundamental_div_mod(rh * cw as int, rw as int);
            let rem = rh * cw - rw * h;
            assert(0 <= rem < rw);
            assert(cw * rh == rh * cw) by (nonlinear_arith);
            assert(h * rw == rw * h) by (nonlinear_arith);
        } else {
            lemma_constrain_height_bound(rw, rh, cw, ch);
            let w = rw * ch / rh;
            vstd::arithmetic::div_mod::lemma_fundamental_div_mod(rw * ch as int, rh as int);
            let rem = rw * ch - rh * w;
            assert(0 <= rem < rh);
            assert(ch * rw == rw * ch) by (nonlinear_arith);
            assert(w * rh == rh * w) by (nonlinear_arith);
        }
    }
}

/// Half of `d`, rounded toward zero, matching machine division on a signed
/// difference.
pub open spec fn spec_half_toward_zero(d: int) -> int {
    if d >= 0 {
        d / 2
    } else {
        -((-d) / 2)
    }
}

/// The left edge of a `w`-wide rectangle centered horizontally within a
/// `maxw`-wide region whose content starts at `x`.
pub open spec fn spec_centered_coord(x: int, maxw: int, w: int) -> int {
    x + spec_half_toward_zero(maxw - w)
}

/// The left edge of a `w`-wide rectangle aligned to the right edge of a
/// `maxw`-wide region whose content starts at `x`.
pub open spec fn spec_end_coord(x: int, maxw: int, w: int) -> int {
    x + maxw - w
}

/// Center a `w`-wide span within a `maxw`-wide region starting at `x`.
pub fn centered_coord(x: i32, maxw: u32, w: u32) -> (r: i32)
    requires
        -(COORD_LIMIT as int) <= x as int <= COORD_LIMIT as int,
        maxw <= COORD_LIMIT,
        w <= COORD_LIMIT,
    ensures
        r as int == spec_centered_coord(x as int, maxw as int, w as int),
{
    if w <= maxw {
        let diff: i64 = maxw as i64 - w as i64;
        (x as i64 + diff / 2) as i32
    } else {
        let diff: i64 = w as i64 - maxw as i64;
        (x as i64 - diff / 2) as i32
    }
}

/// Right-align a `w`-wide span within a `maxw`-wide region starting at `x`.
pub fn end_aligned_coord(x: i32, maxw: u32, w: u32) -> (r: i32)
    requires
        -(COORD_LIMIT as int) <= x as int <= COORD_LIMIT as int,
        maxw <= COORD_LIMIT,
        w <= COORD_LIMIT,
    ensures
        r as int == spec_end_coord(x as int, maxw as int, w as int),
{
    (x as i64 + maxw as i64 - w as i64) as i32
}

/// Horizontal alignment offsets from the region's content origin: centering
/// a `w`-wide rectangle in a `maxw`-wide region shifts it by half the slack,
/// and right-aligning shifts it by the whole slack.
pub proof fn lemma_alignment_offsets(x: int, maxw: int, w: int)
    requires
        0 <= w <= maxw,
    ensures
        spec_centered_coord(x, maxw, w) - x == (maxw - w) / 2,
        spec_end_coord(x, maxw, w) - x == maxw - w,
{
}

} // verus!
