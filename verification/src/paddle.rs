//! The two paddles: their side, their size and how they move.

use vstd::prelude::*;
use crate::geometry::{Vec2, clamp, clamp_wide, VIRTUAL_HEIGHT};

verus! {

/// Distance a paddle travels per millisecond while its key is held.
pub const PADDLE_SPEED: i64 = 200_000;

/// Height of a paddle of regular size.
pub const PADDLE_HEIGHT: i64 = 30_000_000;

/// Width of every paddle.
pub const PADDLE_WIDTH: i64 = 5_000_000;

/// A side of the field, and the player who defends it.
#[derive(Clone, Copy, Debug, PartialEq, Eq, Structural)]
pub enum PaddleSide {
    Left,
    Right,
}

/// The three sizes a paddle can have.
#[derive(Clone, Copy, Debug, PartialEq, Eq, Structural)]
pub enum PaddleSize {
    Small,
    Regular,
    Large,
}

/// The colours in which paddles and ball are drawn.
#[derive(Clone, Copy, Debug, PartialEq, Eq, Structural)]
pub enum Tint {
    White,
    Blue,
    Red,
}

/// Which movement keys are held in this frame.
#[derive(Clone, Copy, Debug, PartialEq, Eq, Structural)]
pub struct Controls {
    pub left_up: bool,
    pub left_down: bool,
    pub right_up: bool,
    pub right_down: bool,
}

/// A paddle: where it is, whose it is and how large.
#[derive(Clone, Copy, Debug, PartialEq, Eq, Structural)]
pub struct Paddle {
    pub score: i32,
    pub side: PaddleSide,
    pub size: PaddleSize,
    pub position: Vec2,
}

impl PaddleSide {
    pub open spec fn opposite(self) -> PaddleSide {
        match self {
            PaddleSide::Left => PaddleSide::Right,
            PaddleSide::Right => PaddleSide::Left,
        }
    }

    /// The other side.
    pub fn other(self) -> (s: PaddleSide)
        ensures
            s == self.opposite(),
    {
        match self {
            PaddleSide::Left => PaddleSide::Right,
            PaddleSide::Right => PaddleSide::Left,
        }
    }

    /// The text under which the player of this side is announced.
    pub fn label(self) -> (s: String)
        ensures
            s@ == (match self {
                PaddleSide::Left => "1"@,
                PaddleSide::Right => "2"@,
            }),
    {
        match self {
            PaddleSide::Left => "1".to_owned(),
            PaddleSide::Right => "2".to_owned(),
        }
    }
}

impl PaddleSize {
    /// Three fifths of the regular height when small, three halves when large.
    pub open spec fn spec_height(self) -> int {
        match self {
            PaddleSize::Small => 18_000_000,
            PaddleSize::Regular => 30_000_000,
            PaddleSize::Large => 45_000_000,
        }
    }

    /// How far from the centre line the centre of a paddle of this size may
    /// go: half the field's height less half the paddle's.
    pub open spec fn spec_reach(self) -> int {
        VIRTUAL_HEIGHT as int / 2 - self.spec_height() / 2
    }

    /// The height of a paddle of this size.
    pub fn height(self) -> (h: i64)
        ensures
            h == self.spec_height(),
    {
        match self {
            PaddleSize::Small => PADDLE_HEIGHT / 5 * 3,
            PaddleSize::Regular => PADDLE_HEIGHT,
            PaddleSize::Large => PADDLE_HEIGHT / 2 * 3,
        }
    }

    /// The greatest distance of the paddle's centre from the centre line.
    pub fn reach(self) -> (r: i64)
        ensures
            r == self.spec_reach(),
            r > 0,
    {
        VIRTUAL_HEIGHT / 2 - self.height() / 2
    }
}

/// The height of a paddle after it has been steered for `dt` milliseconds
/// from height `y`: up and down cancel, and the result stays within reach.
pub open spec fn steered(y: int, size: PaddleSize, up: bool, down: bool, dt: int) -> int {
    let rise = if up { PADDLE_SPEED as int * dt } else { 0 };
    let fall = if down { PADDLE_SPEED as int * dt } else { 0 };
    clamp(y + rise - fall, -size.spec_reach(), size.spec_reach())
}

impl Paddle {
    /// A paddle of regular size for `side`, at the centre of the field.
    pub fn new(side: PaddleSide) -> (p: Paddle)
        ensures
            p.side == side,
            p.size == PaddleSize::Regular,
            p.score == 0,
            p.position.x == 0,
            p.position.y == 0,
    {
        Paddle { score: 0, side, size: PaddleSize::Regular, position: Vec2 { x: 0, y: 0 } }
    }

    /// Width and height of the paddle at its current size.
    pub fn scale(&self) -> (s: Vec2)
        ensures
            s.x == PADDLE_WIDTH,
            s.y == self.size.spec_height(),
    {
        Vec2 { x: PADDLE_WIDTH, y: self.size.height() }
    }

    /// The colour that shows the paddle's size.
    pub fn color(&self) -> (c: Tint)
        ensures
            c == (match self.size {
                PaddleSize::Small => Tint::Red,
                PaddleSize::Regular => Tint::White,
                PaddleSize::Large => Tint::Blue,
            }),
    {
        match self.size {
            PaddleSize::Small => Tint::Red,
            PaddleSize::Regular => Tint::White,
            PaddleSize::Large => Tint::Blue,
        }
    }

    /// Moves the paddle up or down for `dt` milliseconds and keeps it on the
    /// field: afterwards its centre is no further from the centre line than
    /// its current size allows.
    pub fn steer(&mut self, up: bool, down: bool, dt: u32)
        ensures
            final(self).position.y == steered(
                old(self).position.y as int,
                old(self).size,
                up,
                down,
                dt as int,
            ),
            -old(self).size.spec_reach() <= final(self).position.y <= old(self).size.spec_reach(),
            final(self).position.x == old(self).position.x,
            final(self).side == old(self).side,
            final(self).size == old(self).size,
            final(self).score == old(self).score,
    {
        let stride: i128 = PADDLE_SPEED as i128 * dt as i128;
        assert(stride == 200_000 * dt);
        let mut y: i128 = self.position.y as i128;
        if up {
            y = y + stride;
        }
        if down {
            y = y - stride;
        }
        let reach: i64 = self.size.reach();
        self.position.y = clamp_wide(y, -reach, reach);
    }
}

/// A paddle of regular size for `side`, centred at `(x, y)`.
pub fn spawn_paddle(side: PaddleSide, x: i64, y: i64) -> (p: Paddle)
    ensures
        p.side == side,
        p.size == PaddleSize::Regular,
        p.score == 0,
        p.position.x == x,
        p.position.y == y,
{
    let mut p = Paddle::new(side);
    p.position = Vec2 { x, y };
    p
}

/// How a paddle is to be drawn: its width and height, and its colour.
pub fn update_paddle(paddle: &Paddle) -> (look: (Vec2, Tint))
    ensures
        look.0.x == PADDLE_WIDTH,
        look.0.y == paddle.size.spec_height(),
        look.1 == (match paddle.size {
            PaddleSize::Small => Tint::Red,
            PaddleSize::Regular => Tint::White,
            PaddleSize::Large => Tint::Blue,
        }),
{
    (paddle.scale(), paddle.color())
}

/// Which of the held keys move `side`'s paddle up and down.
pub open spec fn keys_of(side: PaddleSide, controls: Controls) -> (bool, bool) {
    match side {
        PaddleSide::Left => (controls.left_up, controls.left_down),
        PaddleSide::Right => (controls.right_up, controls.right_down),
    }
}

/// Moves one paddle by the keys that belong to its side, for `dt`
/// milliseconds, and keeps it on the field.
pub fn move_paddles(paddle: &mut Paddle, controls: Controls, dt: u32)
    ensures
        final(paddle).position.y == steered(
            old(paddle).position.y as int,
            old(paddle).size,
            keys_of(old(paddle).side, controls).0,
            keys_of(old(paddle).side, controls).1,
            dt as int,
        ),
        -old(paddle).size.spec_reach() <= final(paddle).position.y <= old(paddle).size.spec_reach(),
        final(paddle).position.x == old(paddle).position.x,
        final(paddle).side == old(paddle).side,
        final(paddle).size == old(paddle).size,
        final(paddle).score == old(paddle).score,
{
    match paddle.side {
        PaddleSide::Left => paddle.steer(controls.left_up, controls.left_down, dt),
        PaddleSide::Right => paddle.steer(controls.right_up, controls.right_down, dt),
    }
}

} // verus!
