//! The match record and the progression of a match through its states.

use vstd::prelude::*;
use crate::paddle::PaddleSide;

verus! {

/// Points at which a match ends.
pub const VICTORY_POINTS: u32 = 10;

/// The stage a match is in; it decides which per-frame rules apply.
#[derive(Clone, Copy, Debug, PartialEq, Eq, Hash, Structural)]
pub enum AppState {
    Start,
    Serve,
    Play,
    Done,
}

impl Default for AppState {
    fn default() -> (s: AppState)
        ensures
            s == AppState::Start,
    {
        AppState::Start
    }
}

/// Who serves next, the score of each side, and the winner once there is one.
#[derive(Clone, Copy, Debug, PartialEq, Eq, Structural)]
pub struct Game {
    pub serving_player: PaddleSide,
    pub winner: Option<PaddleSide>,
    pub player1_score: u32,
    pub player2_score: u32,
}

/// The record a new match starts from after `winner` has won the last one:
/// no points, no winner, and the loser serving.
pub open spec fn rematch(winner: PaddleSide) -> Game {
    Game {
        serving_player: winner.opposite(),
        winner: None,
        player1_score: 0,
        player2_score: 0,
    }
}

/// The state that follows `state` when the confirm key is or is not pressed.
pub open spec fn confirmed(state: AppState, confirm: bool) -> AppState {
    if !confirm {
        state
    } else {
        match state {
            AppState::Start => AppState::Serve,
            AppState::Serve => AppState::Play,
            AppState::Play => AppState::Play,
            AppState::Done => AppState::Serve,
        }
    }
}

/// A match is over exactly when it has a winner.
pub open spec fn settled(state: AppState, game: Game) -> bool {
    (state == AppState::Done) <==> game.winner is Some
}

impl Game {
    /// The record of a match about to begin: the left side serves.
    pub fn new() -> (g: Game)
        ensures
            g.serving_player == PaddleSide::Left,
            g.winner is None,
            g.player1_score == 0,
            g.player2_score == 0,
    {
        Game { serving_player: PaddleSide::Left, winner: None, player1_score: 0, player2_score: 0 }
    }

    /// Starts the next match: clears the score and the winner and gives the
    /// serve to the side that lost.
    pub fn reset(&mut self)
        requires
            old(self).winner is Some,
        ensures
            *final(self) == rematch(old(self).winner->0),
    {
        let loser = match self.winner {
            Some(PaddleSide::Left) => PaddleSide::Right,
            _ => PaddleSide::Left,
        };
        self.player1_score = 0;
        self.player2_score = 0;
        self.serving_player = loser;
        self.winner = None;
    }
}

/// Applies the confirm key. A confirm leads from `Start` to `Serve`, from
/// `Serve` to `Play`, and from `Done` to `Serve` with the record reset;
/// during play, and without a confirm, nothing changes.
pub fn handle_input(state: AppState, game: &mut Game, confirm: bool) -> (next: AppState)
    requires
        state == AppState::Done && confirm ==> old(game).winner is Some,
    ensures
        next == confirmed(state, confirm),
        *final(game) == if confirm && state == AppState::Done {
            rematch(old(game).winner->0)
        } else {
            *old(game)
        },
        settled(state, *old(game)) ==> settled(next, *final(game)),
{
    if !confirm {
        return state;
    }
    match state {
        AppState::Start => AppState::Serve,
        AppState::Serve => AppState::Play,
        AppState::Play => AppState::Play,
        AppState::Done => {
            game.reset();
            AppState::Serve
        },
    }
}

} // verus!
