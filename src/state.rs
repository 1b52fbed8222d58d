//! The screens the game shell switches between.

use vstd::prelude::*;

verus! {

/// Which screen is shown: a menu before or after a game, or the game itself.
#[derive(Clone, Copy, Debug, Default, PartialEq, Eq, Structural, Hash)]
pub enum AppState {
    #[default]
    StartScreen,
    LoseScreen,
    WinScreen,
    Playing,
}

impl AppState {
    pub open spec fn is_menu(self) -> bool {
        !(self is Playing)
    }

    /// The heading of a menu screen.
    pub fn title(&self) -> (r: &'static str)
        requires
            self.is_menu(),
        ensures
            *self is StartScreen ==> r@ == "Snake"@,
            *self is LoseScreen ==> r@ == "Game Over"@,
            *self is WinScreen ==> r@ == "You Win"@,
    {
        match self {
            AppState::StartScreen => "Snake",
            AppState::LoseScreen => "Game Over",
            _ => "You Win",
        }
    }

    /// The label of a menu screen's button that starts a game.
    pub fn play_button_title(&self) -> (r: &'static str)
        requires
            self.is_menu(),
        ensures
            *self is StartScreen ==> r@ == "Play"@,
            !(*self is StartScreen) ==> r@ == "Play again"@,
    {
        match self {
            AppState::StartScreen => "Play",
            _ => "Play again",
        }
    }
}

} // verus!
