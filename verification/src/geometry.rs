//! Units, the playing field and the small amount of integer geometry the
//! game needs.

use vstd::prelude::*;

verus! {

/// Length units in one field unit.
pub const UNIT: i64 = 1_000_000;

/// Speed units in one field unit per second.
pub const PER_SECOND: i64 = 1_000;

/// Width of the playing field.
pub const VIRTUAL_WIDTH: i64 = 432_000_000;

/// Height of the playing field.
pub const VIRTUAL_HEIGHT: i64 = 243_000_000;

/// Greatest speed, along either axis, that a paddle hit takes into account
/// or hands out; faster components count as this fast.
pub const SPEED_LIMIT: i64 = 0x100_0000_0000;

/// A point or a displacement in the plane of the field.
#[derive(Clone, Copy, Debug, PartialEq, Eq, Structural)]
pub struct Vec2 {
    pub x: i64,
    pub y: i64,
}

/// `v` brought into `lo ..= hi`.
pub open spec fn clamp(v: int, lo: int, hi: int) -> int {
    if v < lo {
        lo
    } else if v > hi {
        hi
    } else {
        v
    }
}

/// `v` brought into the range of a 64-bit signed integer.
pub open spec fn saturated(v: int) -> int {
    clamp(v, i64::MIN as int, i64::MAX as int)
}

/// The opposite of `v`, except that the least value maps to the greatest.
pub open spec fn negated(v: int) -> int {
    saturated(-v)
}

/// The size of `v`, whatever its sign.
pub open spec fn magnitude(v: int) -> int {
    if v < 0 {
        -v
    } else {
        v
    }
}

/// `v` brought within the speed limit.
pub open spec fn capped(v: int) -> int {
    clamp(v, -SPEED_LIMIT as int, SPEED_LIMIT as int)
}

/// `r` is the greatest number whose square is at most `n`.
pub open spec fn is_root(n: nat, r: nat) -> bool {
    r * r <= n < (r + 1) * (r + 1)
}

/// The integer square root: the greatest number whose square is at most `n`.
pub open spec fn root(n: nat) -> nat {
    choose|r: nat| #[trigger] is_root(n, r)
}

/// `c * t / n`, rounded towards zero; `t` and `n` are not negative.
pub open spec fn scaled(c: int, t: int, n: int) -> int {
    if c < 0 {
        -((-c) * t / n)
    } else {
        c * t / n
    }
}

/// Where a coordinate `at` stands after moving at `speed` for `dt`
/// milliseconds.
pub open spec fn advanced(at: int, speed: int, dt: int) -> int {
    saturated(at + speed * dt)
}

/// Whether two closed intervals, each given by centre and full extent, share
/// a point. Extents are even in every use, so halving loses nothing.
pub open spec fn spans_meet(c1: int, extent1: int, c2: int, extent2: int) -> bool {
    c1 - extent1 / 2 <= c2 + extent2 / 2 && c1 + extent1 / 2 >= c2 - extent2 / 2
}

/// Whether two axis-aligned boxes, each given by centre and size, overlap;
/// touching edges count.
pub open spec fn boxes_meet(c1: Vec2, size1: Vec2, c2: Vec2, size2: Vec2) -> bool {
    spans_meet(c1.x as int, size1.x as int, c2.x as int, size2.x as int)
        && spans_meet(c1.y as int, size1.y as int, c2.y as int, size2.y as int)
}

impl Vec2 {
    pub fn new(x: i64, y: i64) -> (v: Vec2)
        ensures
            v.x == x,
            v.y == y,
    {
        Vec2 { x, y }
    }

    /// The origin, the centre of the field.
    pub fn zero() -> (v: Vec2)
        ensures
            v.x == 0,
            v.y == 0,
    {
        Vec2 { x: 0, y: 0 }
    }
}

/// Brings a wide intermediate result into `lo ..= hi`.
pub fn clamp_wide(v: i128, lo: i64, hi: i64) -> (r: i64)
    requires
        lo <= hi,
    ensures
        r == clamp(v as int, lo as int, hi as int),
{
    if v < lo as i128 {
        lo
    } else if v > hi as i128 {
        hi
    } else {
        v as i64
    }
}

/// The opposite of `v`, saturating at the greatest value.
pub fn negate(v: i64) -> (r: i64)
    ensures
        r == negated(v as int),
        v > i64::MIN ==> r == -v,
{
    if v == i64::MIN {
        i64::MAX
    } else {
        -v
    }
}

/// One coordinate after `dt` milliseconds at `speed`, saturating at the ends
/// of the integer range.
pub fn advance(at: i64, speed: i64, dt: u32) -> (r: i64)
    ensures
        r == advanced(at as int, speed as int, dt as int),
{
    proof {
        assert(-0x8000_0000_0000_0000 * 0x1_0000_0000 <= (speed as int) * (dt as int)
            <= 0x8000_0000_0000_0000 * 0x1_0000_0000) by (nonlinear_arith)
            requires
                -0x8000_0000_0000_0000 <= speed as int <= 0x8000_0000_0000_0000,
                0 <= dt as int <= 0x1_0000_0000,
        ;
    }
    let step: i128 = speed as i128 * dt as i128;
    clamp_wide(at as i128 + step, i64::MIN, i64::MAX)
}

/// A number whose square is at most `n`, while the square of the next
/// number is greater, is the integer square root of `n`.
pub proof fn root_is(n: nat, r: nat)
    requires
        is_root(n, r),
    ensures
        root(n) == r,
{
    let q = root(n);
    assert(is_root(n, q));
    assert(q == r) by (nonlinear_arith)
        requires
            q * q <= n,
            n < (q + 1) * (q + 1),
            r * r <= n,
            n < (r + 1) * (r + 1),
    ;
}

/// The integer square root of `n`.
pub fn isqrt(n: u128) -> (r: u64)
    ensures
        r as nat == root(n as nat),
        is_root(n as nat, r as nat),
{
    let mut lo: u128 = 0;
    let mut hi: u128 = 0x1_0000_0000_0000_0000;
    assert(0x1_0000_0000_0000_0000int * 0x1_0000_0000_0000_0000int
        == 0x1_0000_0000_0000_0000_0000_0000_0000_0000int) by (nonlinear_arith);
    while hi - lo > 1
        invariant
            lo < hi <= 0x1_0000_0000_0000_0000,
            lo * lo <= n < hi * hi,
        decreases hi - lo,
    {
        let mid: u128 = lo + (hi - lo) / 2;
        assert(mid * mid <= 0xffff_ffff_ffff_ffff * 0xffff_ffff_ffff_ffff) by (nonlinear_arith)
            requires
                0 <= mid <= 0xffff_ffff_ffff_ffff,
        ;
        if mid * mid <= n {
            lo = mid;
        } else {
            hi = mid;
        }
    }
    proof {
        root_is(n as nat, lo as nat);
    }
    lo as u64
}

/// The size of `v`, at most the speed limit.
pub fn capped_size(v: i64) -> (m: u64)
    ensures
        m == if capped(v as int) < 0 {
            -capped(v as int)
        } else {
            capped(v as int)
        },
        m <= SPEED_LIMIT,
{
    if v <= -SPEED_LIMIT || v >= SPEED_LIMIT {
        SPEED_LIMIT as u64
    } else if v < 0 {
        (-v) as u64
    } else {
        v as u64
    }
}

/// `size * t / n` with the sign given, rounded towards zero and kept within
/// the speed limit.
pub fn scale(size: u64, negative: bool, t: u128, n: u64) -> (r: i64)
    requires
        size <= SPEED_LIMIT,
        t <= 0x4_0000_0000_0000_0000,
        n >= 1,
    ensures
        r == capped(scaled(if negative { -(size as int) } else { size as int }, t as int, n as int)),
        negative ==> r <= 0,
        !negative ==> r >= 0,
        size == 0 ==> r == 0,
{
    assert(size * t <= 0x100_0000_0000 * 0x4_0000_0000_0000_0000) by (nonlinear_arith)
        requires
            0 <= size <= 0x100_0000_0000,
            0 <= t <= 0x4_0000_0000_0000_0000,
    ;
    let q: u128 = size as u128 * t / (n as u128);
    let kept: i64 = if q > SPEED_LIMIT as u128 {
        SPEED_LIMIT
    } else {
        q as i64
    };
    if negative {
        -kept
    } else {
        kept
    }
}

/// Whether two closed intervals share a point.
pub fn spans_overlap(c1: i64, extent1: i64, c2: i64, extent2: i64) -> (r: bool)
    requires
        extent1 >= 0,
        extent2 >= 0,
    ensures
        r == spans_meet(c1 as int, extent1 as int, c2 as int, extent2 as int),
{
    let h1: i128 = (extent1 / 2) as i128;
    let h2: i128 = (extent2 / 2) as i128;
    let a: i128 = c1 as i128;
    let b: i128 = c2 as i128;
    a - h1 <= b + h2 && a + h1 >= b - h2
}

/// Whether two axis-aligned boxes overlap; touching edges count.
pub fn boxes_overlap(c1: Vec2, size1: Vec2, c2: Vec2, size2: Vec2) -> (r: bool)
    requires
        size1.x >= 0,
        size1.y >= 0,
        size2.x >= 0,
        size2.y >= 0,
    ensures
        r == boxes_meet(c1, size1, c2, size2),
{
    spans_overlap(c1.x, size1.x, c2.x, size2.x) && spans_overlap(c1.y, size1.y, c2.y, size2.y)
}

} // verus!
