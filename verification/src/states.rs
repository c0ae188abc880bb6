use vstd::prelude::*;

verus! {

/// The screens of the game.
#[derive(Clone, Copy, Debug, PartialEq, Eq, Structural)]
pub enum GameState {
    Menu,
    Playing,
    Victory,
    Defeat,
}

impl Default for GameState {
    fn default() -> (s: Self)
        ensures
            s == GameState::Menu,
    {
        GameState::Menu
    }
}

/// On the menu, ENTER or SPACE starts a game.
pub fn menu_input(enter_pressed: bool, space_pressed: bool) -> (next: Option<GameState>)
    ensures
        next == (if enter_pressed || space_pressed {
            Some(GameState::Playing)
        } else {
            None
        }),
{
    if enter_pressed || space_pressed {
        Some(GameState::Playing)
    } else {
        None
    }
}

/// On a result screen, ENTER plays again and ESCAPE returns to the menu.
/// When both are pressed in the same frame, the later request (the menu) wins.
pub fn result_input(enter_pressed: bool, escape_pressed: bool) -> (next: Option<GameState>)
    ensures
        next == (if escape_pressed {
            Some(GameState::Menu)
        } else if enter_pressed {
            Some(GameState::Playing)
        } else {
            None
        }),
{
    let mut next = None;
    if enter_pressed {
        next = Some(GameState::Playing);
    }
    if escape_pressed {
        next = Some(GameState::Menu);
    }
    next
}

} // verus!
