//! What a paddle hit does to the ball's pace, proved from the integer
//! arithmetic that computes it.

use vstd::prelude::*;
use vstd::arithmetic::div_mod::{lemma_fundamental_div_mod, lemma_mod_bound};
use crate::ball::{
    boosted, pace, rebounded, Ball, BALL_MIN_SPEED, HIT_MAX_DRIFT, HIT_MIN_DRIFT, SPEED_BASE,
    SPEED_GAIN,
};
use crate::geometry::{
    capped, is_root, magnitude, negated, root, root_is, scaled, Vec2, SPEED_LIMIT,
};

verus! {

/// Every number has an integer square root.
pub proof fn root_exists(n: nat)
    ensures
        is_root(n, root(n)),
    decreases n,
{
    if n == 0 {
        assert(is_root(0, 0)) by {
            assert(0nat * 0nat == 0 && (0nat + 1) * (0nat + 1) == 1) by (nonlinear_arith);
        }
    } else {
        let m = (n - 1) as nat;
        root_exists(m);
        let r = root(m);
        assert(is_root(m, r));
        if n < (r + 1) * (r + 1) {
            assert(is_root(n, r));
        } else {
            assert((r + 1) * (r + 1) <= n && n < (r + 1 + 1) * (r + 1 + 1)) by (nonlinear_arith)
                requires
                    n - 1 < (r + 1) * (r + 1),
                    n >= (r + 1) * (r + 1),
            ;
            assert(is_root(n, r + 1));
        }
    }
}

/// A quotient rounded down is within one divisor of the exact one.
proof fn floor_bounds(p: int, n: int)
    requires
        0 <= p,
        0 < n,
    ensures
        0 <= p / n,
        n * (p / n) <= p < n * (p / n + 1),
{
    lemma_fundamental_div_mod(p, n);
    lemma_mod_bound(p, n);
    assert(n * (p / n + 1) == n * (p / n) + n) by (nonlinear_arith);
    assert(0 <= p / n) by (nonlinear_arith)
        requires
            0 < n,
            p < n * (p / n) + n,
            0 <= p,
    ;
}

/// Of two numbers that are not negative, the one with the smaller square is
/// the smaller.
proof fn smaller_square(u: int, v: int)
    requires
        0 <= u,
        0 <= v,
        u * u < v * v,
    ensures
        u < v,
{
    assert(u < v) by (nonlinear_arith)
        requires
            0 <= u,
            0 <= v,
            u * u < v * v,
    ;
}

/// Stretching a heading `(a, b)` of integer length `n` to the length `t`,
/// each component rounded down, gives a vector whose integer length `p` is
/// at most two below `t` and, where `n` is at least ten thousand, exceeds
/// `t` by no more than one part in ten thousand.
pub proof fn stretch_bounds(a: nat, b: nat, t: nat, n: nat, p: nat)
    requires
        is_root(a * a + b * b, n),
        n >= 10_000,
        is_root((a * t / n) * (a * t / n) + (b * t / n) * (b * t / n), p),
    ensures
        t - 2 <= p,
        10_000 * (p - t) <= t,
        a * t / n <= t,
        b * t / n <= t,
{
    let ai = a as int;
    let bi = b as int;
    let ti = t as int;
    let ni = n as int;
    let pi = p as int;
    let x = (a * t) as int / ni;
    let y = (b * t) as int / ni;
    assert(0 <= ai * ti && 0 <= bi * ti) by (nonlinear_arith)
        requires
            0 <= ai,
            0 <= bi,
            0 <= ti,
    ;
    floor_bounds(ai * ti, ni);
    floor_bounds(bi * ti, ni);
    let k = ai * ai + bi * bi;
    assert(ni * ni <= k < (ni + 1) * (ni + 1));
    assert(pi * pi <= x * x + y * y < (pi + 1) * (pi + 1));
    // neither component is longer than the whole
    assert(ai <= ni && bi <= ni) by (nonlinear_arith)
        requires
            0 <= ai,
            0 <= bi,
            0 <= ni,
            ai * ai + bi * bi < (ni + 1) * (ni + 1),
    ;
    assert(x <= ti) by (nonlinear_arith)
        requires
            ni * x <= ai * ti,
            ai <= ni,
            0 < ni,
            0 <= ti,
            0 <= x,
    ;
    assert(y <= ti) by (nonlinear_arith)
        requires
            ni * y <= bi * ti,
            bi <= ni,
            0 < ni,
            0 <= ti,
            0 <= y,
    ;
    // from above
    if ti == 0 {
        assert(x == 0 && y == 0);
        assert(pi * pi <= 0);
        assert(pi == 0) by (nonlinear_arith)
            requires
                pi * pi <= 0,
                0 <= pi,
        ;
    } else {
        assert((ni * x) * (ni * x) <= (ai * ti) * (ai * ti)) by (nonlinear_arith)
            requires
                0 <= ni * x <= ai * ti,
        ;
        assert((ni * y) * (ni * y) <= (bi * ti) * (bi * ti)) by (nonlinear_arith)
            requires
                0 <= ni * y <= bi * ti,
        ;
        assert(0 <= ni * x && 0 <= ni * y) by (nonlinear_arith)
            requires
                0 < ni,
                0 <= x,
                0 <= y,
        ;
        assert((ai * ti) * (ai * ti) + (bi * ti) * (bi * ti) == k * (ti * ti)) by (nonlinear_arith)
            requires
                k == ai * ai + bi * bi,
        ;
        assert(k * (ti * ti) < ((ni + 1) * ti) * ((ni + 1) * ti)) by (nonlinear_arith)
            requires
                k < (ni + 1) * (ni + 1),
                0 < ti,
        ;
        assert((ni * pi) * (ni * pi) <= (ni * x) * (ni * x) + (ni * y) * (ni * y))
            by (nonlinear_arith)
            requires
                pi * pi <= x * x + y * y,
        ;
        assert(0 <= ni * pi && 0 <= (ni + 1) * ti) by (nonlinear_arith)
            requires
                0 <= ni,
                0 <= pi,
                0 <= ti,
        ;
        smaller_square(ni * pi, (ni + 1) * ti);
        assert(10_000 * (pi - ti) <= ti) by (nonlinear_arith)
            requires
                ni * pi < (ni + 1) * ti,
                ni >= 10_000,
                0 <= ti,
        ;
    }
    // from below
    if ti >= 2 && pi < ti - 2 {
        let cap = ti - 2;
        assert((pi + 1) * (pi + 1) <= cap * cap) by (nonlinear_arith)
            requires
                0 <= pi + 1 <= cap,
        ;
        assert(x * x < cap * cap && y * y < cap * cap) by (nonlinear_arith)
            requires
                x * x + y * y < cap * cap,
        ;
        smaller_square(x, cap);
        smaller_square(y, cap);
        assert((x + 1) * (x + 1) + (y + 1) * (y + 1) < ti * ti) by (nonlinear_arith)
            requires
                x * x + y * y < cap * cap,
                x <= cap - 1,
                y <= cap - 1,
                cap == ti - 2,
        ;
        assert((ai * ti) * (ai * ti) < (ni * (x + 1)) * (ni * (x + 1))) by (nonlinear_arith)
            requires
                0 <= ai * ti < ni * (x + 1),
        ;
        assert((bi * ti) * (bi * ti) < (ni * (y + 1)) * (ni * (y + 1))) by (nonlinear_arith)
            requires
                0 <= bi * ti < ni * (y + 1),
        ;
        assert((ai * ti) * (ai * ti) + (bi * ti) * (bi * ti) == k * (ti * ti)) by (nonlinear_arith)
            requires
                k == ai * ai + bi * bi,
        ;
        assert((ni * ni) * (ti * ti) <= k * (ti * ti)) by (nonlinear_arith)
            requires
                ni * ni <= k,
        ;
        assert((ni * (x + 1)) * (ni * (x + 1)) + (ni * (y + 1)) * (ni * (y + 1)) == (ni * ni) * ((x
            + 1) * (x + 1) + (y + 1) * (y + 1))) by (nonlinear_arith);
        assert(false) by (nonlinear_arith)
            requires
                (ni * ni) * (ti * ti) < (ni * ni) * ((x + 1) * (x + 1) + (y + 1) * (y + 1)),
                (x + 1) * (x + 1) + (y + 1) * (y + 1) < ti * ti,
                0 < ni,
        ;
    }
}

/// A paddle hit multiplies the ball's pace by six fifths, to within
/// rounding: the pace after the hit is at most two below six fifths of the
/// pace before, and exceeds it by no more than one part in ten thousand. A
/// ball that is not nearly at rest is never slower after a hit than before.
/// This holds of every hit, so of any number of hits in a row, as long as
/// six fifths of the pace stays within the speed limit.
pub proof fn hit_speeds_up(speed: Vec2, drift: int)
    requires
        HIT_MIN_DRIFT <= drift <= HIT_MAX_DRIFT,
        pace(speed) * SPEED_GAIN as int / SPEED_BASE as int <= SPEED_LIMIT,
    ensures
        pace(speed) * 6 / 5 - 2 <= pace(boosted(speed, drift)),
        10_000 * (pace(boosted(speed, drift)) - pace(speed) * 6 / 5) <= pace(speed) * 6 / 5,
        pace(speed) >= 15 ==> pace(boosted(speed, drift)) >= pace(speed),
{
    let vx = capped(speed.x as int);
    let a = -vx;
    let b = if speed.y < 0 { -drift } else { drift };
    let am: nat = (if a < 0 { -a } else { a }) as nat;
    let bm: nat = drift as nat;
    let t: nat = (pace(speed) * 6 / 5) as nat;
    assert(a * a == am * am) by (nonlinear_arith)
        requires
            am == a || am == -a,
    ;
    assert(b * b == bm * bm) by (nonlinear_arith)
        requires
            bm == b || bm == -b,
    ;
    assert(am * am + bm * bm >= 100_000_000) by (nonlinear_arith)
        requires
            bm >= 10_000,
    ;
    let k: nat = am * am + bm * bm;
    assert((a * a + b * b) as nat == k);
    let n = root(k);
    root_exists(k);
    assert(n >= 10_000) by (nonlinear_arith)
        requires
            k < (n + 1) * (n + 1),
            k >= 100_000_000,
    ;
    let x: nat = am * t / n;
    let y: nat = bm * t / n;
    let p = root(x * x + y * y);
    root_exists(x * x + y * y);
    stretch_bounds(am, bm, t, n, p);
    let sx = scaled(a, t as int, n as int);
    let sy = scaled(b, t as int, n as int);
    assert(sx == x || sx == -x);
    assert(sy == y || sy == -y);
    assert(capped(sx) == sx && capped(sy) == sy);
    let after = boosted(speed, drift);
    assert(after.x == sx && after.y == sy);
    assert(sx * sx == x * x) by (nonlinear_arith)
        requires
            sx == x || sx == -x,
    ;
    assert(sy * sy == y * y) by (nonlinear_arith)
        requires
            sy == y || sy == -y,
    ;
    assert(pace(after) == p);
}

/// A ball that comes in at serving speed or faster leaves a paddle hit
/// heading the other way horizontally and the same way vertically, neither
/// component being zero, and on the slope that the drawn vertical speed
/// makes with the old horizontal speed, to within the rounding of one unit
/// in each component. This holds as long as the old horizontal speed and six
/// fifths of the pace stay within the speed limit.
pub proof fn hit_turns_ball(speed: Vec2, drift: int)
    requires
        HIT_MIN_DRIFT <= drift <= HIT_MAX_DRIFT,
        BALL_MIN_SPEED <= magnitude(speed.x as int) <= SPEED_LIMIT,
        pace(speed) * SPEED_GAIN as int / SPEED_BASE as int <= SPEED_LIMIT,
    ensures
        speed.x > 0 ==> boosted(speed, drift).x < 0,
        speed.x < 0 ==> boosted(speed, drift).x > 0,
        speed.y < 0 ==> boosted(speed, drift).y < 0,
        speed.y >= 0 ==> boosted(speed, drift).y > 0,
        magnitude(boosted(speed, drift).y as int) * magnitude(speed.x as int) < (magnitude(
            boosted(speed, drift).x as int,
        ) + 1) * drift,
        magnitude(boosted(speed, drift).x as int) * drift < (magnitude(
            boosted(speed, drift).y as int,
        ) + 1) * magnitude(speed.x as int),
{
    let vx = capped(speed.x as int);
    let vy = capped(speed.y as int);
    assert(vx == speed.x);
    let a = -vx;
    let b = if speed.y < 0 { -drift } else { drift };
    let am: nat = magnitude(a) as nat;
    let bm: nat = drift as nat;
    let k0: nat = (vx * vx + vy * vy) as nat;
    root_exists(k0);
    let p0 = root(k0);
    let t: nat = (p0 * 6 / 5) as nat;
    assert(vx * vx == am * am) by (nonlinear_arith)
        requires
            am == vx || am == -vx,
    ;
    assert(a * a == am * am) by (nonlinear_arith)
        requires
            am == a || am == -a,
    ;
    assert(b * b == bm * bm) by (nonlinear_arith)
        requires
            bm == b || bm == -b,
    ;
    assert(0 <= vy * vy) by (nonlinear_arith);
    assert(p0 >= am) by (nonlinear_arith)
        requires
            k0 < (p0 + 1) * (p0 + 1),
            k0 >= am * am,
    ;
    assert(t >= am);
    assert(am * am + bm * bm >= 100_000_000) by (nonlinear_arith)
        requires
            bm >= 10_000,
    ;
    let k: nat = am * am + bm * bm;
    assert((a * a + b * b) as nat == k);
    root_exists(k);
    let n = root(k);
    assert(n >= 10_000) by (nonlinear_arith)
        requires
            k < (n + 1) * (n + 1),
            k >= 100_000_000,
    ;
    assert(n <= am + bm) by (nonlinear_arith)
        requires
            n * n <= k,
            k == am * am + bm * bm,
    ;
    let x: nat = am * t / n;
    let y: nat = bm * t / n;
    root_exists(x * x + y * y);
    stretch_bounds(am, bm, t, n, root(x * x + y * y));
    assert(0 <= am * t && 0 <= bm * t) by (nonlinear_arith);
    floor_bounds((am * t) as int, n as int);
    floor_bounds((bm * t) as int, n as int);
    assert(am * t >= n) by (nonlinear_arith)
        requires
            t >= am,
            am >= 100_000,
            bm <= 150_000,
            n <= am + bm,
    ;
    assert(bm * t >= n) by (nonlinear_arith)
        requires
            t >= am,
            am >= 100_000,
            10_000 <= bm <= 150_000,
            n <= am + bm,
    ;
    assert(x >= 1) by (nonlinear_arith)
        requires
            n <= am * t,
            am * t < n * (x + 1),
            n > 0,
    ;
    assert(y >= 1) by (nonlinear_arith)
        requires
            n <= bm * t,
            bm * t < n * (y + 1),
            n > 0,
    ;
    assert(y * am < (x + 1) * bm) by (nonlinear_arith)
        requires
            n * y <= bm * t,
            am * t < n * (x + 1),
            n > 0,
            am > 0,
            bm > 0,
    ;
    assert(x * bm < (y + 1) * am) by (nonlinear_arith)
        requires
            n * x <= am * t,
            bm * t < n * (y + 1),
            n > 0,
            am > 0,
            bm > 0,
    ;
    let sx = scaled(a, t as int, n as int);
    let sy = scaled(b, t as int, n as int);
    assert(sx == if a < 0 { -(x as int) } else { x as int });
    assert(sy == if b < 0 { -(y as int) } else { y as int });
    assert(capped(sx) == sx && capped(sy) == sy);
    let after = boosted(speed, drift);
    assert(after.x == sx && after.y == sy);
}

/// The speed after a run of paddle hits, one for each drawn vertical speed.
pub open spec fn after_hits(speed: Vec2, drifts: Seq<int>) -> Vec2
    decreases drifts.len(),
{
    if drifts.len() == 0 {
        speed
    } else {
        boosted(after_hits(speed, drifts.drop_last()), drifts.last())
    }
}

/// The least pace after `hits` paddle hits of a ball that had the pace `p`:
/// six fifths each time, less two for rounding.
pub open spec fn least_pace(p: int, hits: nat) -> int
    decreases hits,
{
    if hits == 0 {
        p
    } else {
        least_pace(p, (hits - 1) as nat) * 6 / 5 - 2
    }
}

/// The greatest pace after `hits` paddle hits of a ball that had the pace
/// `p`: six fifths each time, and one part in ten thousand more.
pub open spec fn most_pace(p: int, hits: nat) -> int
    decreases hits,
{
    if hits == 0 {
        p
    } else {
        most_pace(p, (hits - 1) as nat) * 6 / 5 + most_pace(p, (hits - 1) as nat) * 6 / 5 / 10_000
    }
}

/// Over any number of paddle hits in a row the pace is multiplied by six
/// fifths each time, to within rounding, and never falls: after the hits it
/// lies between `least_pace` and `most_pace` of the pace before them and is
/// no less than that pace. The ball must not be nearly at rest to begin
/// with, and six fifths of the greatest pace must stay within the speed
/// limit before every hit.
pub proof fn hits_speed_up(speed: Vec2, drifts: Seq<int>)
    requires
        forall|i: int| 0 <= i < drifts.len() ==> HIT_MIN_DRIFT <= #[trigger] drifts[i] <= HIT_MAX_DRIFT,
        pace(speed) >= 15,
        forall|k: nat| k < drifts.len() ==> #[trigger] most_pace(pace(speed) as int, k) * 6 / 5 <= SPEED_LIMIT,
    ensures
        least_pace(pace(speed) as int, drifts.len()) <= pace(after_hits(speed, drifts)) <= most_pace(
            pace(speed) as int,
            drifts.len(),
        ),
        pace(speed) <= pace(after_hits(speed, drifts)),
    decreases drifts.len(),
{
    if drifts.len() > 0 {
        let earlier = drifts.drop_last();
        let hits = earlier.len();
        assert forall|i: int| 0 <= i < earlier.len() implies HIT_MIN_DRIFT <= #[trigger] earlier[i]
            <= HIT_MAX_DRIFT by {
            assert(earlier[i] == drifts[i]);
        }
        hits_speed_up(speed, earlier);
        let before = after_hits(speed, earlier);
        assert(most_pace(pace(speed) as int, hits) * 6 / 5 <= SPEED_LIMIT);
        hit_speeds_up(before, drifts.last());
    }
}

/// A wall turns the ball's vertical speed round and leaves its pace as it
/// was.
pub proof fn wall_keeps_pace(ball: Ball)
    ensures
        pace(rebounded(ball).speed) == pace(ball.speed),
{
    let vy = capped(ball.speed.y as int);
    let wy = capped(negated(ball.speed.y as int));
    assert(wy == -vy);
    assert(wy * wy == vy * vy) by (nonlinear_arith)
        requires
            wy == -vy,
    ;
}

} // verus!
