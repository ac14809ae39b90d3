//! The session state machine: main menu, running game, game over, and the
//! three transitions the interface triggers between them.

use vstd::prelude::*;

verus! {

/// Which screen the session is on.
#[derive(Clone, Copy, Debug, PartialEq, Eq, Structural)]
pub enum GameState {
    MainMenu,
    InGame,
    GameOver,
}

impl Default for GameState {
    /// A fresh session starts on the main menu.
    fn default() -> (r: GameState)
        ensures
            r is MainMenu,
    {
        GameState::MainMenu
    }
}

/// A click on the main menu's play button starts the game; anything else
/// leaves the state alone.
pub fn play_click_transition(state: GameState, hovered: bool, released: bool) -> (r: GameState)
    ensures
        r == if state is MainMenu && hovered && released {
            GameState::InGame
        } else {
            state
        },
{
    if matches!(state, GameState::MainMenu) && hovered && released {
        GameState::InGame
    } else {
        state
    }
}

/// A click on the game-over screen's menu button returns to the main menu;
/// anything else leaves the state alone.
pub fn menu_click_transition(state: GameState, hovered: bool, released: bool) -> (r: GameState)
    ensures
        r == if state is GameOver && hovered && released {
            GameState::MainMenu
        } else {
            state
        },
{
    if matches!(state, GameState::GameOver) && hovered && released {
        GameState::MainMenu
    } else {
        state
    }
}

/// A running game ends the moment no player is left; any other state is
/// untouched by the check.
pub fn end_game_transition(state: GameState, player_present: bool) -> (r: GameState)
    ensures
        r == if state is InGame && !player_present {
            GameState::GameOver
        } else {
            state
        },
{
    if matches!(state, GameState::InGame) && !player_present {
        GameState::GameOver
    } else {
        state
    }
}

} // verus!
