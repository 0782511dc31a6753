//! The states of the application.

use vstd::prelude::*;

verus! {

#[derive(Debug, Copy, Clone, Hash, Eq, PartialEq, Structural)]
pub enum AppState {
    Load,
    Menu(MenuState),
    Game(GameState),
}

#[derive(Debug, Copy, Clone, Hash, Eq, PartialEq, Structural)]
pub enum MenuState {
    StartMenu,
}

#[derive(Debug, Copy, Clone, Hash, Eq, PartialEq, Structural)]
pub enum GameState {
    Running,
    Pause,
}

/// Where the start menu leads: into the running game as soon as any key was
/// just pressed, and nowhere before.
pub fn start_menu_controls(just_pressed: usize) -> (next: Option<AppState>)
    ensures
        next == if just_pressed > 0 {
            Some(AppState::Game(GameState::Running))
        } else {
            None
        },
{
    if just_pressed > 0 {
        Some(AppState::Game(GameState::Running))
    } else {
        None
    }
}

} // verus!
