//! The game's top-level phases and the transitions the core decides.

use vstd::prelude::*;
use crate::quantity::EndCondition;

verus! {

/// Where the game stands as a whole.
#[derive(Clone, Copy, Debug, PartialEq, Eq, Structural)]
pub enum GamePhase {
    /// Assets still loading; inputs are ignored.
    AssetLoading,
    /// Game not started; game entities do not exist.
    Menu,
    Playing,
    Paused,
    /// Game entities exist but are frozen.
    WinOrGameOver,
}

/// What the escape key does in each phase: pause and unpause the game,
/// back out of the terminal screen, start from the menu, and nothing
/// while assets load.
pub fn phase_on_escape(phase: GamePhase) -> (next: Option<GamePhase>)
    ensures
        next == (match phase {
            GamePhase::AssetLoading => None::<GamePhase>,
            GamePhase::Playing => Some(GamePhase::Paused),
            GamePhase::Paused => Some(GamePhase::Playing),
            GamePhase::Menu => Some(GamePhase::Playing),
            GamePhase::WinOrGameOver => Some(GamePhase::Menu),
        }),
{
    match phase {
        GamePhase::AssetLoading => None,
        GamePhase::Playing => Some(GamePhase::Paused),
        GamePhase::Paused | GamePhase::Menu => Some(GamePhase::Playing),
        GamePhase::WinOrGameOver => Some(GamePhase::Menu),
    }
}

/// The status line shown over the playfield in each phase.  In the
/// terminal phase the ending decides between the win and the game-over
/// message; in every other phase `end` is ignored.
pub fn status_text(phase: GamePhase, end: EndCondition) -> (r: &'static str)
    ensures
        r@ == (match phase {
            GamePhase::AssetLoading => "Loading"@,
            GamePhase::Menu => "Interplanetary Recombobulator"@,
            GamePhase::WinOrGameOver => match end {
                EndCondition::GameOver => "Game Overheated"@,
                EndCondition::Win => "Win"@,
            },
            GamePhase::Playing => ""@,
            GamePhase::Paused => "Paused"@,
        }),
{
    match phase {
        GamePhase::AssetLoading => "Loading",
        GamePhase::Menu => "Interplanetary Recombobulator",
        GamePhase::WinOrGameOver => match end {
            EndCondition::GameOver => "Game Overheated",
            EndCondition::Win => "Win",
        },
        GamePhase::Playing => "",
        GamePhase::Paused => "Paused",
    }
}

/// A terminal outcome freezes the game: both endings lead to the same
/// frozen phase, and the transition is idempotent — applying it in the
/// terminal phase leaves the phase alone.
pub fn phase_on_end(phase: GamePhase, end: EndCondition) -> (next: GamePhase)
    ensures
        next == GamePhase::WinOrGameOver,
        phase == GamePhase::WinOrGameOver ==> next == phase,
{
    match end {
        EndCondition::GameOver => GamePhase::WinOrGameOver,
        EndCondition::Win => GamePhase::WinOrGameOver,
    }
}

} // verus!
