//! The ball: how it is served, how it moves, what happens when it meets a
//! paddle, a wall or the end of the field.

use vstd::prelude::*;
use rand::rngs::StdRng;
use crate::chance::draw;
use crate::game::{confirmed, rematch, AppState, Game, VICTORY_POINTS};
use crate::geometry::{
    advance, advanced, boxes_meet, boxes_overlap, capped, capped_size, clamp_wide, is_root, isqrt,
    magnitude, negate, negated, root, saturated, scale, scaled, Vec2, SPEED_LIMIT, VIRTUAL_HEIGHT,
    VIRTUAL_WIDTH,
};
use crate::pace::{hit_speeds_up, hit_turns_ball, wall_keeps_pace};
use crate::paddle::{Paddle, PaddleSide, PaddleSize, Tint, PADDLE_WIDTH};

verus! {

/// Side of the square ball.
pub const BALL_SIZE: i64 = 4_000_000;

/// Least horizontal speed of a serve.
pub const BALL_MIN_SPEED: i64 = 100_000;

/// Greatest horizontal speed of a serve.
pub const BALL_MAX_SPEED: i64 = 150_000;

/// Greatest vertical speed of a serve, up or down.
pub const SERVE_DRIFT: i64 = 50_000;

/// Least vertical speed after a paddle hit, up or down.
pub const HIT_MIN_DRIFT: i64 = 10_000;

/// Greatest vertical speed after a paddle hit, up or down.
pub const HIT_MAX_DRIFT: i64 = 150_000;

/// A paddle hit multiplies the ball's speed by `SPEED_GAIN` over
/// `SPEED_BASE`, six fifths.
pub const SPEED_GAIN: u128 = 6;

/// See `SPEED_GAIN`.
pub const SPEED_BASE: u128 = 5;

/// Horizontal speed of the very first launch, left or right.
pub const LAUNCH_SPEED: i64 = 100_000;

/// Least vertical speed of the very first launch, up or down.
pub const LAUNCH_MIN_DRIFT: i64 = 80_000;

/// Greatest vertical speed of the very first launch, up or down.
pub const LAUNCH_MAX_DRIFT: i64 = 100_000;

/// Shortest time, in milliseconds, until the ball next changes its kind.
pub const TAG_MIN_DELAY: u32 = 1_000;

/// Longest time, in milliseconds, until the ball next changes its kind.
pub const TAG_MAX_DELAY: u32 = 10_000;

/// Counts down the milliseconds until the ball next changes its kind.
#[derive(Clone, Copy, Debug, PartialEq, Eq, Structural)]
pub struct BallTimer {
    pub remaining: u32,
}

/// What the ball will do to the next paddle it meets.
#[derive(Clone, Copy, Debug, PartialEq, Eq, Structural)]
pub enum BallType {
    Regular,
    Grower,
    Shrinker,
}

/// The ball: where it is, how fast it travels, and its kind.
#[derive(Clone, Copy, Debug, PartialEq, Eq, Structural)]
pub struct Ball {
    pub position: Vec2,
    pub speed: Vec2,
    pub ty: BallType,
}

/// What one frame's collisions were: the vertical speed drawn at the hit on
/// the first and on the second paddle, where there was one, and whether a
/// wall was hit.
#[derive(Clone, Copy, Debug, PartialEq, Eq, Structural)]
pub struct Impacts {
    pub first: Option<i64>,
    pub second: Option<i64>,
    pub wall: bool,
}

/// A serve by `side` travels towards the other side at a horizontal speed
/// between the least and the greatest, with a bounded vertical speed.
pub open spec fn serve_ready(speed: Vec2, side: PaddleSide) -> bool {
    &&& -SERVE_DRIFT <= speed.y <= SERVE_DRIFT
    &&& match side {
        PaddleSide::Left => BALL_MIN_SPEED <= speed.x <= BALL_MAX_SPEED,
        PaddleSide::Right => -BALL_MAX_SPEED <= speed.x <= -BALL_MIN_SPEED,
    }
}

/// The first launch is fast and steep: a fixed horizontal speed to either
/// side and a vertical speed that is never near zero.
pub open spec fn launch_ready(speed: Vec2) -> bool {
    &&& speed.x == LAUNCH_SPEED || speed.x == -LAUNCH_SPEED
    &&& -LAUNCH_MAX_DRIFT <= speed.y <= -LAUNCH_MIN_DRIFT || LAUNCH_MIN_DRIFT <= speed.y
        <= LAUNCH_MAX_DRIFT
}

/// The kind of the ball after one frame: the shrink key wins over the grow
/// key, a key over the timer, and when the timer fires the coin decides.
pub open spec fn retagged(ty: BallType, fired: bool, coin: bool, grow: bool, shrink: bool)
    -> BallType {
    if shrink {
        BallType::Shrinker
    } else if grow {
        BallType::Grower
    } else if fired {
        if coin {
            BallType::Grower
        } else {
            BallType::Shrinker
        }
    } else {
        ty
    }
}

/// The size a paddle takes when a ball of kind `ty` hits it.
pub open spec fn size_after(ty: BallType) -> PaddleSize {
    match ty {
        BallType::Grower => PaddleSize::Large,
        BallType::Shrinker => PaddleSize::Small,
        BallType::Regular => PaddleSize::Regular,
    }
}

/// A paddle only meets a ball that is not moving away from it.
pub open spec fn faces(side: PaddleSide, dx: int) -> bool {
    match side {
        PaddleSide::Left => dx <= 0,
        PaddleSide::Right => dx >= 0,
    }
}

/// Width and height of a paddle of the given size.
pub open spec fn paddle_box(size: PaddleSize) -> Vec2 {
    Vec2 { x: PADDLE_WIDTH, y: size.spec_height() as i64 }
}

/// Width and height of the ball.
pub open spec fn ball_box() -> Vec2 {
    Vec2 { x: BALL_SIZE, y: BALL_SIZE }
}

/// The ball hits the paddle: it is not moving away and the two boxes overlap.
pub open spec fn touches(ball: Ball, paddle: Paddle) -> bool {
    faces(paddle.side, ball.speed.x as int) && boxes_meet(
        ball.position,
        ball_box(),
        paddle.position,
        paddle_box(paddle.size),
    )
}

/// Where the ball is put after a hit: flush against the edge of the paddle
/// that faces the field, half a paddle and half a ball away from the
/// paddle's centre.
pub open spec fn landing(paddle: Paddle) -> int {
    match paddle.side {
        PaddleSide::Left => saturated(paddle.position.x + PADDLE_WIDTH / 2 + BALL_SIZE / 2),
        PaddleSide::Right => saturated(paddle.position.x - PADDLE_WIDTH / 2 - BALL_SIZE / 2),
    }
}

/// How fast the ball travels: the length of its speed, rounded down.
pub open spec fn pace(speed: Vec2) -> nat {
    let vx = capped(speed.x as int);
    let vy = capped(speed.y as int);
    root((vx * vx + vy * vy) as nat)
}

/// The speed after a paddle hit at which `drift` was drawn. The ball heads
/// back horizontally and keeps its vertical direction, with `drift` in
/// place of its vertical speed; that heading is then stretched to six
/// fifths of the pace the ball had.
pub open spec fn boosted(speed: Vec2, drift: int) -> Vec2 {
    let a = -capped(speed.x as int);
    let b = if speed.y < 0 { -drift } else { drift };
    let target = pace(speed) * SPEED_GAIN as int / SPEED_BASE as int;
    let n = root((a * a + b * b) as nat);
    Vec2 {
        x: capped(scaled(a, target as int, n as int)) as i64,
        y: capped(scaled(b, target as int, n as int)) as i64,
    }
}

/// A paddle hit has multiplied the pace by six fifths, to within rounding:
/// the pace of `after` is at most two below six fifths of the pace of
/// `before` and exceeds it by no more than one part in ten thousand, and a
/// ball that was not nearly at rest is no slower. Nothing is claimed where
/// six fifths of the pace would pass the speed limit.
pub open spec fn sped_up(before: Vec2, after: Vec2) -> bool {
    let target = pace(before) * SPEED_GAIN as int / SPEED_BASE as int;
    target <= SPEED_LIMIT ==> {
        &&& target - 2 <= pace(after)
        &&& 10_000 * (pace(after) - target) <= target
        &&& pace(before) >= 15 ==> pace(after) >= pace(before)
    }
}

/// A paddle hit at which `drift` was drawn has turned the ball: `after`
/// heads the other way horizontally and the same way vertically as `before`,
/// with neither component zero, on the slope of `drift` over the old
/// horizontal speed to within one unit of rounding in each component.
/// Nothing is claimed of a ball that came in slower than a serve, or where
/// the speed limit is passed.
pub open spec fn turned(before: Vec2, after: Vec2, drift: int) -> bool {
    let came = magnitude(before.x as int);
    let target = pace(before) * SPEED_GAIN as int / SPEED_BASE as int;
    BALL_MIN_SPEED <= came <= SPEED_LIMIT && target <= SPEED_LIMIT ==> {
        &&& before.x > 0 ==> after.x < 0
        &&& before.x < 0 ==> after.x > 0
        &&& before.y < 0 ==> after.y < 0
        &&& before.y >= 0 ==> after.y > 0
        &&& magnitude(after.y as int) * came < (magnitude(after.x as int) + 1) * drift
        &&& magnitude(after.x as int) * drift < (magnitude(after.y as int) + 1) * came
    }
}

/// The ball after a hit on `paddle` at which `drift` was drawn: it turns
/// back faster than it came, lies flush against the paddle and is regular
/// again.
pub open spec fn deflected(ball: Ball, paddle: Paddle, drift: int) -> Ball {
    Ball {
        position: Vec2 { x: landing(paddle) as i64, y: ball.position.y },
        speed: boosted(ball.speed, drift),
        ty: BallType::Regular,
    }
}

/// The paddle after a ball of kind `ty` has hit it.
pub open spec fn resized(paddle: Paddle, ty: BallType) -> Paddle {
    Paddle { size: size_after(ty), ..paddle }
}

/// The ball after meeting `paddle`, given the vertical speed drawn if they
/// touched.
pub open spec fn ball_past(ball: Ball, paddle: Paddle, drift: Option<i64>) -> Ball {
    match drift {
        Some(d) => deflected(ball, paddle, d as int),
        None => ball,
    }
}

/// The paddle after meeting `ball`, given the vertical speed drawn if they
/// touched.
pub open spec fn paddle_past(ball: Ball, paddle: Paddle, drift: Option<i64>) -> Paddle {
    match drift {
        Some(_) => resized(paddle, ball.ty),
        None => paddle,
    }
}

/// A drawn vertical speed, if any, is within the bounds for a paddle hit.
pub open spec fn drift_in_bounds(drift: Option<i64>) -> bool {
    drift is Some ==> HIT_MIN_DRIFT <= drift->0 <= HIT_MAX_DRIFT
}

/// How far from the centre line the ball's centre may go before it meets a
/// wall.
pub open spec fn wall_reach() -> int {
    VIRTUAL_HEIGHT as int / 2 - BALL_SIZE as int / 2
}

/// The ball is past the lower or the upper wall.
pub open spec fn beyond_wall(ball: Ball) -> bool {
    ball.position.y < -wall_reach() || ball.position.y > wall_reach()
}

/// The ball after the walls have had their say: past a wall it is put back
/// on it and its vertical speed turns round.
pub open spec fn rebounded(ball: Ball) -> Ball {
    if ball.position.y < -wall_reach() {
        Ball {
            position: Vec2 { x: ball.position.x, y: (-wall_reach()) as i64 },
            speed: Vec2 { x: ball.speed.x, y: negated(ball.speed.y as int) as i64 },
            ty: ball.ty,
        }
    } else if ball.position.y > wall_reach() {
        Ball {
            position: Vec2 { x: ball.position.x, y: wall_reach() as i64 },
            speed: Vec2 { x: ball.speed.x, y: negated(ball.speed.y as int) as i64 },
            ty: ball.ty,
        }
    } else {
        ball
    }
}

/// How far from the centre the ball's centre must be to have left the field
/// at either end.
pub open spec fn goal_line() -> int {
    (VIRTUAL_WIDTH as int + BALL_SIZE as int) / 2
}

/// The side whose end of the field the ball has left, if it has left it.
pub open spec fn crossed(ball: Ball) -> Option<PaddleSide> {
    if ball.position.x < -goal_line() {
        Some(PaddleSide::Left)
    } else if ball.position.x > goal_line() {
        Some(PaddleSide::Right)
    } else {
        None
    }
}

/// The score of the side that gains a point when `side` concedes one.
pub open spec fn score_against(game: Game, side: PaddleSide) -> u32 {
    match side {
        PaddleSide::Left => game.player2_score,
        PaddleSide::Right => game.player1_score,
    }
}

/// The record after `side` has conceded a point: the other side has one
/// point more, `side` serves next, and the other side has won if that point
/// brought it to the victory threshold.
pub open spec fn conceded(game: Game, side: PaddleSide) -> Game {
    let points = score_against(game, side) + 1;
    Game {
        serving_player: side,
        winner: if points == VICTORY_POINTS {
            Some(side.opposite())
        } else {
            game.winner
        },
        player1_score: if side == PaddleSide::Right {
            points as u32
        } else {
            game.player1_score
        },
        player2_score: if side == PaddleSide::Left {
            points as u32
        } else {
            game.player2_score
        },
    }
}

/// The state that follows a point conceded by `side`: the match is done if
/// that point was the winning one, otherwise the next serve is awaited.
pub open spec fn state_after_point(game: Game, side: PaddleSide) -> AppState {
    if score_against(game, side) + 1 == VICTORY_POINTS {
        AppState::Done
    } else {
        AppState::Serve
    }
}

/// The speed with which the ball leaves a paddle hit at which `drift` was
/// drawn, given the speed with which it came: turned back, on the slope that
/// `drift` makes with the old horizontal speed, and six fifths as fast.
pub fn boost(speed: Vec2, drift: i64) -> (r: Vec2)
    requires
        HIT_MIN_DRIFT <= drift <= HIT_MAX_DRIFT,
    ensures
        r == boosted(speed, drift as int),
        speed.x >= 0 ==> r.x <= 0,
        speed.x <= 0 ==> r.x >= 0,
        speed.y < 0 ==> r.y <= 0,
        speed.y >= 0 ==> r.y >= 0,
        sped_up(speed, r),
        turned(speed, r, drift as int),
{
    proof {
        if pace(speed) * SPEED_GAIN as int / SPEED_BASE as int <= SPEED_LIMIT {
            hit_speeds_up(speed, drift as int);
            if BALL_MIN_SPEED <= magnitude(speed.x as int) <= SPEED_LIMIT {
                hit_turns_ball(speed, drift as int);
            }
        }
    }
    let mx: u64 = capped_size(speed.x);
    let my: u64 = capped_size(speed.y);
    let md: u64 = drift as u64;
    proof {
        let vx = capped(speed.x as int);
        let vy = capped(speed.y as int);
        let b = if speed.y < 0 { -(drift as int) } else { drift as int };
        assert(mx * mx == vx * vx && mx * mx == (-vx) * (-vx)) by (nonlinear_arith)
            requires
                mx == vx || mx == -vx,
        ;
        assert(my * my == vy * vy) by (nonlinear_arith)
            requires
                my == vy || my == -vy,
        ;
        assert(md * md == b * b) by (nonlinear_arith)
            requires
                md == b || md == -b,
        ;
        assert(mx * mx <= 0x100_0000_0000 * 0x100_0000_0000) by (nonlinear_arith)
            requires
                0 <= mx <= 0x100_0000_0000,
        ;
        assert(my * my <= 0x100_0000_0000 * 0x100_0000_0000) by (nonlinear_arith)
            requires
                0 <= my <= 0x100_0000_0000,
        ;
        assert(1 <= md * md <= 150_000 * 150_000) by (nonlinear_arith)
            requires
                1 <= md <= 150_000,
        ;
    }
    let came: u128 = mx as u128 * mx as u128 + my as u128 * my as u128;
    let heads: u128 = mx as u128 * mx as u128 + md as u128 * md as u128;
    let target: u128 = isqrt(came) as u128 * SPEED_GAIN / SPEED_BASE;
    let n: u64 = isqrt(heads);
    assert(n >= 1) by {
        assert(is_root(heads as nat, n as nat));
    }
    let x: i64 = scale(mx, speed.x > 0, target, n);
    let y: i64 = scale(md, speed.y < 0, target, n);
    Vec2 { x, y }
}

impl BallTimer {
    /// A timer that fires after `remaining` milliseconds.
    pub fn new(remaining: u32) -> (t: BallTimer)
        ensures
            t.remaining == remaining,
    {
        BallTimer { remaining }
    }

    /// Whether the timer fires within the next `dt` milliseconds.
    pub open spec fn fires(self, dt: u32) -> bool {
        self.remaining <= dt
    }

    /// Lets `dt` milliseconds pass and says whether the timer has fired; a
    /// timer that has fired stays at zero.
    pub fn tick(&mut self, dt: u32) -> (fired: bool)
        ensures
            fired == old(self).fires(dt),
            final(self).remaining == if fired {
                0
            } else {
                old(self).remaining - dt
            },
    {
        if self.remaining <= dt {
            self.remaining = 0;
            true
        } else {
            self.remaining = self.remaining - dt;
            false
        }
    }
}

impl BallType {
    /// The size the next paddle hit gives the paddle.
    pub fn paddle_size(self) -> (s: PaddleSize)
        ensures
            s == size_after(self),
    {
        match self {
            BallType::Grower => PaddleSize::Large,
            BallType::Shrinker => PaddleSize::Small,
            BallType::Regular => PaddleSize::Regular,
        }
    }

    /// The kind of the ball after one frame, given whether the timer fired,
    /// how the coin fell and which of the two keys were pressed.
    pub fn next(self, fired: bool, coin: bool, grow: bool, shrink: bool) -> (t: BallType)
        ensures
            t == retagged(self, fired, coin, grow, shrink),
    {
        if shrink {
            BallType::Shrinker
        } else if grow {
            BallType::Grower
        } else if fired {
            if coin {
                BallType::Grower
            } else {
                BallType::Shrinker
            }
        } else {
            self
        }
    }
}

impl Ball {
    /// A regular ball at the centre of the field with its launch speed
    /// drawn.
    pub fn new(rng: &mut StdRng) -> (b: Ball)
        ensures
            b.position.x == 0,
            b.position.y == 0,
            b.ty == BallType::Regular,
            launch_ready(b.speed),
    {
        Ball { position: Vec2 { x: 0, y: 0 }, speed: Self::gen_speed(rng), ty: BallType::Regular }
    }

    /// Draws the speed of the first launch.
    fn gen_speed(rng: &mut StdRng) -> (speed: Vec2)
        ensures
            launch_ready(speed),
    {
        let x: i64 = if draw(rng, 1, 2) == 1 {
            LAUNCH_SPEED
        } else {
            -LAUNCH_SPEED
        };
        let y: i64 = if draw(rng, 1, 2) == 1 {
            draw(rng, -LAUNCH_MAX_DRIFT, -LAUNCH_MIN_DRIFT)
        } else {
            draw(rng, LAUNCH_MIN_DRIFT, LAUNCH_MAX_DRIFT)
        };
        Vec2 { x, y }
    }

    /// Draws the speed of the next serve by `side`: away from the server,
    /// towards the opponent.
    pub fn prepare_to_serve(&mut self, side: PaddleSide, rng: &mut StdRng)
        ensures
            serve_ready(final(self).speed, side),
            final(self).position == old(self).position,
            final(self).ty == old(self).ty,
    {
        let dy: i64 = draw(rng, -SERVE_DRIFT, SERVE_DRIFT);
        let dx: i64 = match side {
            PaddleSide::Left => draw(rng, BALL_MIN_SPEED, BALL_MAX_SPEED),
            PaddleSide::Right => draw(rng, -BALL_MAX_SPEED, -BALL_MIN_SPEED),
        };
        self.speed = Vec2 { x: dx, y: dy };
    }

    /// The colour that shows the ball's kind.
    pub fn color(&self) -> (c: Tint)
        ensures
            c == (match self.ty {
                BallType::Regular => Tint::White,
                BallType::Grower => Tint::Blue,
                BallType::Shrinker => Tint::Red,
            }),
    {
        match self.ty {
            BallType::Regular => Tint::White,
            BallType::Grower => Tint::Blue,
            BallType::Shrinker => Tint::Red,
        }
    }

    /// Moves the ball for `dt` milliseconds at its current speed.
    pub fn fly(&mut self, dt: u32)
        ensures
            final(self).position.x == advanced(
                old(self).position.x as int,
                old(self).speed.x as int,
                dt as int,
            ),
            final(self).position.y == advanced(
                old(self).position.y as int,
                old(self).speed.y as int,
                dt as int,
            ),
            final(self).speed == old(self).speed,
            final(self).ty == old(self).ty,
    {
        let x: i64 = advance(self.position.x, self.speed.x, dt);
        let y: i64 = advance(self.position.y, self.speed.y, dt);
        self.position = Vec2 { x, y };
    }

    /// Whether the ball hits `paddle` in its present place.
    pub fn hits(&self, paddle: &Paddle) -> (r: bool)
        ensures
            r == touches(*self, *paddle),
    {
        let toward: bool = match paddle.side {
            PaddleSide::Left => self.speed.x <= 0,
            PaddleSide::Right => self.speed.x >= 0,
        };
        toward && boxes_overlap(
            self.position,
            Vec2 { x: BALL_SIZE, y: BALL_SIZE },
            paddle.position,
            paddle.scale(),
        )
    }

    /// Answers a hit on `paddle` at which the vertical speed `drift` was
    /// drawn: the ball turns back and lies flush against the paddle, the paddle
    /// takes the size that the ball's kind calls for, and the ball is
    /// regular again.
    pub fn deflect(&mut self, paddle: &mut Paddle, drift: i64)
        requires
            HIT_MIN_DRIFT <= drift <= HIT_MAX_DRIFT,
        ensures
            *final(self) == deflected(*old(self), *old(paddle), drift as int),
            *final(paddle) == resized(*old(paddle), old(self).ty),
            final(self).ty == BallType::Regular,
            old(self).speed.x >= 0 ==> final(self).speed.x <= 0,
            old(self).speed.x <= 0 ==> final(self).speed.x >= 0,
            old(self).speed.y < 0 ==> final(self).speed.y <= 0,
            old(self).speed.y >= 0 ==> final(self).speed.y >= 0,
            sped_up(old(self).speed, final(self).speed),
            turned(old(self).speed, final(self).speed, drift as int),
    {
        let x: i64 = match paddle.side {
            PaddleSide::Left => clamp_wide(
                paddle.position.x as i128 + (PADDLE_WIDTH / 2 + BALL_SIZE / 2) as i128,
                i64::MIN,
                i64::MAX,
            ),
            PaddleSide::Right => clamp_wide(
                paddle.position.x as i128 - (PADDLE_WIDTH / 2 + BALL_SIZE / 2) as i128,
                i64::MIN,
                i64::MAX,
            ),
        };
        self.speed = boost(self.speed, drift);
        self.position = Vec2 { x, y: self.position.y };
        paddle.size = self.ty.paddle_size();
        self.ty = BallType::Regular;
    }

    /// Lets the ball meet `paddle`: if they touch, a vertical speed is drawn
    /// and the hit is answered as by `deflect`; the speed drawn is returned.
    /// If they do not touch, nothing changes.
    pub fn strike(&mut self, paddle: &mut Paddle, rng: &mut StdRng) -> (drift: Option<i64>)
        ensures
            drift is Some <==> touches(*old(self), *old(paddle)),
            drift_in_bounds(drift),
            *final(self) == ball_past(*old(self), *old(paddle), drift),
            *final(paddle) == paddle_past(*old(self), *old(paddle), drift),
            drift is Some ==> final(self).ty == BallType::Regular,
            drift is Some ==> sped_up(old(self).speed, final(self).speed),
            drift is Some ==> turned(old(self).speed, final(self).speed, drift->0 as int),
    {
        if self.hits(paddle) {
            let d: i64 = draw(rng, HIT_MIN_DRIFT, HIT_MAX_DRIFT);
            self.deflect(paddle, d);
            Some(d)
        } else {
            None
        }
    }

    /// Keeps the ball between the walls: past a wall it is put back on it
    /// and its vertical speed turns round. Says whether a wall was hit.
    pub fn rebound(&mut self) -> (hit: bool)
        ensures
            hit == beyond_wall(*old(self)),
            *final(self) == rebounded(*old(self)),
            final(self).speed.x == old(self).speed.x,
            !hit ==> *final(self) == *old(self),
            pace(final(self).speed) == pace(old(self).speed),
    {
        proof {
            wall_keeps_pace(*self);
        }
        let reach: i64 = VIRTUAL_HEIGHT / 2 - BALL_SIZE / 2;
        if self.position.y < -reach {
            self.position = Vec2 { x: self.position.x, y: -reach };
            self.speed = Vec2 { x: self.speed.x, y: negate(self.speed.y) };
            true
        } else if self.position.y > reach {
            self.position = Vec2 { x: self.position.x, y: reach };
            self.speed = Vec2 { x: self.speed.x, y: negate(self.speed.y) };
            true
        } else {
            false
        }
    }

    /// The side whose end of the field the ball has left, if any.
    pub fn out_of_bounds(&self) -> (side: Option<PaddleSide>)
        ensures
            side == crossed(*self),
    {
        let line: i64 = (VIRTUAL_WIDTH + BALL_SIZE) / 2;
        if self.position.x < -line {
            Some(PaddleSide::Left)
        } else if self.position.x > line {
            Some(PaddleSide::Right)
        } else {
            None
        }
    }
}

impl Game {
    /// Books a point conceded by `side` and returns the state that follows:
    /// `Done` with the other side as winner if the point brought it to the
    /// victory threshold, `Serve` otherwise. Either way `side` serves next.
    pub fn concede(&mut self, side: PaddleSide) -> (next: AppState)
        requires
            score_against(*old(self), side) < u32::MAX,
        ensures
            *final(self) == conceded(*old(self), side),
            next == state_after_point(*old(self), side),
            final(self).serving_player == side,
            final(self).player1_score >= old(self).player1_score,
            final(self).player2_score >= old(self).player2_score,
            next == AppState::Done ==> final(self).winner == Some(side.opposite()),
            next == AppState::Done || next == AppState::Serve,
            old(self).winner is None ==> (next == AppState::Done <==> final(self).winner is Some),
    {
        self.serving_player = side;
        let points: u32 = match side {
            PaddleSide::Left => {
                self.player2_score = self.player2_score + 1;
                self.player2_score
            },
            PaddleSide::Right => {
                self.player1_score = self.player1_score + 1;
                self.player1_score
            },
        };
        if points == VICTORY_POINTS {
            self.winner = Some(side.other());
            AppState::Done
        } else {
            AppState::Serve
        }
    }
}

/// A new ball, and the timer for its first change of kind.
pub fn spawn_ball(rng: &mut StdRng) -> (r: (Ball, BallTimer))
    ensures
        r.0.position.x == 0,
        r.0.position.y == 0,
        r.0.ty == BallType::Regular,
        launch_ready(r.0.speed),
        TAG_MIN_DELAY <= r.1.remaining <= TAG_MAX_DELAY,
{
    let ball = Ball::new(rng);
    let delay: i64 = draw(rng, TAG_MIN_DELAY as i64, TAG_MAX_DELAY as i64);
    (ball, BallTimer { remaining: delay as u32 })
}

/// One frame of the ball's kind. The timer runs for `dt` milliseconds; when
/// it fires a coin is thrown for grower or shrinker and a new delay is
/// drawn. The grow and shrink keys set the kind directly and win over the
/// coin. Returns the coin if the timer fired.
pub fn update_ball(
    ball: &mut Ball,
    timer: &mut BallTimer,
    rng: &mut StdRng,
    dt: u32,
    grow: bool,
    shrink: bool,
) -> (coin: Option<bool>)
    ensures
        coin is Some <==> old(timer).fires(dt),
        final(ball).ty == retagged(
            old(ball).ty,
            coin is Some,
            coin is Some && coin->0,
            grow,
            shrink,
        ),
        final(ball).position == old(ball).position,
        final(ball).speed == old(ball).speed,
        coin is Some ==> TAG_MIN_DELAY <= final(timer).remaining <= TAG_MAX_DELAY,
        coin is None ==> final(timer).remaining == old(timer).remaining - dt,
{
    let fired: bool = timer.tick(dt);
    let mut coin: Option<bool> = None;
    if fired {
        let heads: bool = draw(rng, 1, 2) == 1;
        let delay: i64 = draw(rng, TAG_MIN_DELAY as i64, TAG_MAX_DELAY as i64);
        timer.remaining = delay as u32;
        coin = Some(heads);
        ball.ty = ball.ty.next(true, heads, grow, shrink);
    } else {
        ball.ty = ball.ty.next(false, false, grow, shrink);
    }
    coin
}

/// One frame of the ball's motion. In play the ball flies for `dt`
/// milliseconds; while a serve is awaited its serve speed is drawn anew;
/// when the match is done it rests at the centre; before the first serve
/// nothing happens.
pub fn move_ball(state: AppState, game: &Game, ball: &mut Ball, rng: &mut StdRng, dt: u32)
    ensures
        final(ball).ty == old(ball).ty,
        state == AppState::Start ==> *final(ball) == *old(ball),
        state == AppState::Play ==> {
            &&& final(ball).speed == old(ball).speed
            &&& final(ball).position.x == advanced(
                old(ball).position.x as int,
                old(ball).speed.x as int,
                dt as int,
            )
            &&& final(ball).position.y == advanced(
                old(ball).position.y as int,
                old(ball).speed.y as int,
                dt as int,
            )
        },
        state == AppState::Serve ==> {
            &&& final(ball).position == old(ball).position
            &&& serve_ready(final(ball).speed, game.serving_player)
        },
        state == AppState::Done ==> {
            &&& final(ball).speed == old(ball).speed
            &&& final(ball).position.x == 0
            &&& final(ball).position.y == 0
        },
{
    match state {
        AppState::Play => ball.fly(dt),
        AppState::Serve => ball.prepare_to_serve(game.serving_player, rng),
        AppState::Done => {
            ball.position = Vec2 { x: 0, y: 0 };
        },
        AppState::Start => {},
    }
}

/// One frame of collisions: the ball meets the first paddle, then the
/// second, then the walls. A paddle that is hit is resized by the ball's
/// kind, and the ball is regular afterwards. A frame without a paddle hit
/// leaves the ball's pace as it was; a frame with one multiplies it by six
/// fifths, wall or no wall.
pub fn handle_collisions(
    ball: &mut Ball,
    first: &mut Paddle,
    second: &mut Paddle,
    rng: &mut StdRng,
) -> (r: Impacts)
    ensures
        r.first is Some <==> touches(*old(ball), *old(first)),
        r.second is Some <==> touches(ball_past(*old(ball), *old(first), r.first), *old(second)),
        r.wall == beyond_wall(
            ball_past(ball_past(*old(ball), *old(first), r.first), *old(second), r.second),
        ),
        drift_in_bounds(r.first),
        drift_in_bounds(r.second),
        *final(first) == paddle_past(*old(ball), *old(first), r.first),
        *final(second) == paddle_past(
            ball_past(*old(ball), *old(first), r.first),
            *old(second),
            r.second,
        ),
        *final(ball) == rebounded(
            ball_past(ball_past(*old(ball), *old(first), r.first), *old(second), r.second),
        ),
        r.first is Some || r.second is Some ==> final(ball).ty == BallType::Regular,
        r.first is None && r.second is None ==> pace(final(ball).speed) == pace(old(ball).speed),
        r.first is Some && r.second is None ==> sped_up(old(ball).speed, final(ball).speed),
        r.first is None && r.second is Some ==> sped_up(old(ball).speed, final(ball).speed),
        r.first is Some && r.second is None && !r.wall ==> turned(
            old(ball).speed,
            final(ball).speed,
            r.first->0 as int,
        ),
        r.first is None && r.second is Some && !r.wall ==> turned(
            old(ball).speed,
            final(ball).speed,
            r.second->0 as int,
        ),
{
    let d1: Option<i64> = ball.strike(first, rng);
    let d2: Option<i64> = ball.strike(second, rng);
    let wall: bool = ball.rebound();
    Impacts { first: d1, second: d2, wall }
}

/// One frame of scoring. If the ball has left the field, the side whose end
/// it left concedes a point and serves next. If that point wins the match
/// the state becomes `Done`; otherwise the ball goes back to the centre, its
/// serve speed is drawn and the state becomes `Serve`. Returns the new
/// state, or nothing if the ball is still on the field.
pub fn score_point(game: &mut Game, ball: &mut Ball, rng: &mut StdRng) -> (next: Option<
    AppState,
>)
    requires
        crossed(*old(ball)) is Some ==> score_against(*old(game), crossed(*old(ball))->0)
            < u32::MAX,
    ensures
        final(ball).ty == old(ball).ty,
        match crossed(*old(ball)) {
            None => {
                &&& next is None
                &&& *final(game) == *old(game)
                &&& *final(ball) == *old(ball)
            },
            Some(side) => {
                &&& next == Some(state_after_point(*old(game), side))
                &&& *final(game) == conceded(*old(game), side)
                &&& next == Some(AppState::Done) ==> {
                    &&& *final(ball) == *old(ball)
                    &&& final(game).winner == Some(side.opposite())
                }
                &&& next == Some(AppState::Serve) ==> {
                    &&& final(ball).position.x == 0
                    &&& final(ball).position.y == 0
                    &&& serve_ready(final(ball).speed, side)
                }
            },
        },
        final(game).player1_score >= old(game).player1_score,
        final(game).player2_score >= old(game).player2_score,
        old(game).winner is None ==> (next == Some(AppState::Done) <==> final(game).winner is Some),
{
    match ball.out_of_bounds() {
        None => None,
        Some(side) => {
            let state: AppState = game.concede(side);
            match state {
                AppState::Done => {},
                _ => {
                    ball.prepare_to_serve(side, rng);
                    ball.position = Vec2 { x: 0, y: 0 };
                },
            }
            Some(state)
        },
    }
}

/// Whoever concedes the point that ends a match serves first in the next
/// one, and the next match starts without points and without a winner.
pub proof fn loser_serves_next(game: Game, side: PaddleSide)
    requires
        state_after_point(game, side) == AppState::Done,
    ensures
        conceded(game, side).winner == Some(side.opposite()),
        confirmed(AppState::Done, true) == AppState::Serve,
        rematch(conceded(game, side).winner->0) == (Game {
            serving_player: side,
            winner: None,
            player1_score: 0,
            player2_score: 0,
        }),
{
}

} // verus!
