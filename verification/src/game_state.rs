//! The screens of the game and how the player moves between them.

use vstd::prelude::*;
use crate::resources::GameMode;

verus! {

/// The screen the game is on.
#[derive(Clone, Copy, PartialEq, Eq, Debug, Structural)]
pub enum GameState {
    Loading,
    MainMenu,
    Initializing,
    Combat,
    Paused,
    Ui,
    Shopping,
    End,
    Win,
}

impl Default for GameState {
    /// The game starts by loading its assets.
    fn default() -> (r: Self)
        ensures
            r == GameState::Loading,
    {
        GameState::Loading
    }
}

/// The selection one step up a menu of `count` buttons, wrapping round.
pub open spec fn up_spec(selected: u8, count: u8) -> u8 {
    ((selected + count - 1) % (count as int)) as u8
}

/// The selection one step down a menu of `count` buttons, wrapping round.
pub open spec fn down_spec(selected: u8, count: u8) -> u8 {
    ((selected + 1) % (count as int)) as u8
}

/// Moves the selection of a menu of `count` buttons one step up.
pub fn navigate_up(selected: u8, count: u8) -> (r: u8)
    requires
        count > 0,
        selected + count <= u8::MAX,
    ensures
        r == up_spec(selected, count),
{
    (selected + count - 1) % count
}

/// Moves the selection of a menu of `count` buttons one step down.
pub fn navigate_down(selected: u8, count: u8) -> (r: u8)
    requires
        count > 0,
        selected < u8::MAX,
    ensures
        r == down_spec(selected, count),
{
    (selected + 1) % count
}

/// In a menu, a step down followed by a step up, or a step up followed by
/// a step down, comes back to the same button.
pub proof fn lemma_navigation_round_trip(selected: u8, count: u8)
    requires
        0 < count,
        selected < count,
    ensures
        up_spec(down_spec(selected, count), count) == selected,
        down_spec(up_spec(selected, count), count) == selected,
{
    let s = selected as int;
    let c = count as int;
    if s + 1 == c {
        assert((s + 1) % c == 0) by (nonlinear_arith)
            requires
                s + 1 == c,
                c > 0,
        ;
        assert((0 + c - 1) % c == s) by (nonlinear_arith)
            requires
                s + 1 == c,
                c > 0,
        ;
    } else {
        assert((s + 1) % c == s + 1) by (nonlinear_arith)
            requires
                0 <= s,
                s + 1 < c,
        ;
        assert((s + 1 + c - 1) % c == s) by (nonlinear_arith)
            requires
                0 <= s < c,
        ;
    }
    if s == 0 {
        assert((s + c - 1) % c == c - 1) by (nonlinear_arith)
            requires
                s == 0,
                c > 0,
        ;
        assert((c - 1 + 1) % c == 0) by (nonlinear_arith)
            requires
                c > 0,
        ;
    } else {
        assert((s + c - 1) % c == s - 1) by (nonlinear_arith)
            requires
                0 < s < c,
        ;
        assert((s - 1 + 1) % c == s) by (nonlinear_arith)
            requires
                0 < s < c,
        ;
    }
}

/// The buttons of the main menu, top to bottom.
#[derive(Clone, Copy, PartialEq, Eq, Debug, Structural)]
pub enum MainMenuButton {
    StartNormal,
    StartForever,
    Control,
    Exit,
}

/// Buttons on the main menu.
pub const MAIN_MENU_BUTTONS: u8 = 4;

/// The main menu button at position `index`; none past the last.
pub fn main_menu_button_at(index: u8) -> (r: Option<MainMenuButton>)
    ensures
        r == if index == 0 {
            Some(MainMenuButton::StartNormal)
        } else if index == 1 {
            Some(MainMenuButton::StartForever)
        } else if index == 2 {
            Some(MainMenuButton::Control)
        } else if index == 3 {
            Some(MainMenuButton::Exit)
        } else {
            None::<MainMenuButton>
        },
{
    match index {
        0 => Some(MainMenuButton::StartNormal),
        1 => Some(MainMenuButton::StartForever),
        2 => Some(MainMenuButton::Control),
        3 => Some(MainMenuButton::Exit),
        _ => None,
    }
}

/// What pressing a main menu button does.
#[derive(Clone, Copy, PartialEq, Eq, Debug, Structural)]
pub enum MainMenuAction {
    /// Start a run in this mode: the game moves on to initializing it.
    Start { mode: GameMode },
    /// Show the controls over the menu.
    ShowControls,
    /// Leave the game.
    Exit,
}

/// What pressing a main menu button does.
pub fn main_menu_action(button: MainMenuButton) -> (r: MainMenuAction)
    ensures
        r == match button {
            MainMenuButton::StartNormal => MainMenuAction::Start { mode: GameMode::Normal },
            MainMenuButton::StartForever => MainMenuAction::Start { mode: GameMode::Forever },
            MainMenuButton::Control => MainMenuAction::ShowControls,
            MainMenuButton::Exit => MainMenuAction::Exit,
        },
{
    match button {
        MainMenuButton::StartNormal => MainMenuAction::Start { mode: GameMode::Normal },
        MainMenuButton::StartForever => MainMenuAction::Start { mode: GameMode::Forever },
        MainMenuButton::Control => MainMenuAction::ShowControls,
        MainMenuButton::Exit => MainMenuAction::Exit,
    }
}

/// The buttons of the pause menu.
#[derive(Clone, Copy, PartialEq, Eq, Debug, Structural)]
pub enum PauseMenuButton {
    Resume,
    Restart,
    Quit,
    ToggleMute,
}

/// The pause menu button at position `index` (resume, toggle mute,
/// restart, quit from the top); none past the last.
pub fn pause_menu_button_at(index: u8) -> (r: Option<PauseMenuButton>)
    ensures
        r == if index == 0 {
            Some(PauseMenuButton::Resume)
        } else if index == 1 {
            Some(PauseMenuButton::ToggleMute)
        } else if index == 2 {
            Some(PauseMenuButton::Restart)
        } else if index == 3 {
            Some(PauseMenuButton::Quit)
        } else {
            None::<PauseMenuButton>
        },
{
    match index {
        0 => Some(PauseMenuButton::Resume),
        1 => Some(PauseMenuButton::ToggleMute),
        2 => Some(PauseMenuButton::Restart),
        3 => Some(PauseMenuButton::Quit),
        _ => None,
    }
}

/// What pressing a pause menu button does.
#[derive(Clone, Copy, PartialEq, Eq, Debug, Structural)]
pub struct PauseAction {
    /// The screen to move to, if any.
    pub next_state: Option<GameState>,
    /// Hide the pause menu.
    pub hide_menu: bool,
    /// Remove everything of the current run.
    pub cleanup: bool,
    /// Leave the game.
    pub quit: bool,
    /// Switch the sound on or off.
    pub toggle_mute: bool,
    /// Put the selection back on the first button.
    pub reset_selection: bool,
}

/// What pressing a pause menu button does: resume goes back to combat,
/// toggle mute switches the sound and goes back to combat, restart starts
/// the run over, quit leaves the game.
pub open spec fn pause_action_spec(button: PauseMenuButton) -> PauseAction {
    match button {
        PauseMenuButton::Resume => PauseAction {
            next_state: Some(GameState::Combat),
            hide_menu: true,
            cleanup: false,
            quit: false,
            toggle_mute: false,
            reset_selection: true,
        },
        PauseMenuButton::Restart => PauseAction {
            next_state: Some(GameState::Initializing),
            hide_menu: false,
            cleanup: true,
            quit: false,
            toggle_mute: false,
            reset_selection: false,
        },
        PauseMenuButton::Quit => PauseAction {
            next_state: None,
            hide_menu: false,
            cleanup: false,
            quit: true,
            toggle_mute: false,
            reset_selection: false,
        },
        PauseMenuButton::ToggleMute => PauseAction {
            next_state: Some(GameState::Combat),
            hide_menu: true,
            cleanup: false,
            quit: false,
            toggle_mute: true,
            reset_selection: true,
        },
    }
}

/// What pressing a pause menu button does.
pub fn pause_menu_action(button: PauseMenuButton) -> (r: PauseAction)
    ensures
        r == pause_action_spec(button),
{
    match button {
        PauseMenuButton::Resume => PauseAction {
            next_state: Some(GameState::Combat),
            hide_menu: true,
            cleanup: false,
            quit: false,
            toggle_mute: false,
            reset_selection: true,
        },
        PauseMenuButton::Restart => PauseAction {
            next_state: Some(GameState::Initializing),
            hide_menu: false,
            cleanup: true,
            quit: false,
            toggle_mute: false,
            reset_selection: false,
        },
        PauseMenuButton::Quit => PauseAction {
            next_state: None,
            hide_menu: false,
            cleanup: false,
            quit: true,
            toggle_mute: false,
            reset_selection: false,
        },
        PauseMenuButton::ToggleMute => PauseAction {
            next_state: Some(GameState::Combat),
            hide_menu: true,
            cleanup: false,
            quit: false,
            toggle_mute: true,
            reset_selection: true,
        },
    }
}

/// The pause key: combat pauses (showing the menu), a pause resumes
/// (hiding it), any other screen ignores the key.
pub open spec fn pause_toggle_spec(current: GameState) -> Option<GameState> {
    match current {
        GameState::Combat => Some(GameState::Paused),
        GameState::Paused => Some(GameState::Combat),
        _ => None,
    }
}

/// The screen the pause key leads to, if any; the pause menu is shown
/// exactly when the new screen is the pause.
pub fn pause_toggle(current: GameState) -> (r: Option<GameState>)
    ensures
        r == pause_toggle_spec(current),
{
    match current {
        GameState::Combat => Some(GameState::Paused),
        GameState::Paused => Some(GameState::Combat),
        _ => None,
    }
}

/// Pressing the pause key twice from combat or from the pause comes back
/// to where it started.
pub proof fn lemma_pause_toggle_twice(current: GameState)
    requires
        current == GameState::Combat || current == GameState::Paused,
    ensures
        pause_toggle_spec(pause_toggle_spec(current)->0) == Some(current),
{
}

/// The shop key: combat opens the shop, any other screen it is pressed on
/// (the shop) goes back to combat. The shop is shown exactly when the new
/// screen is the shop.
pub fn shop_toggle(current: GameState) -> (r: GameState)
    ensures
        r == if current == GameState::Combat {
            GameState::Shopping
        } else {
            GameState::Combat
        },
{
    if current == GameState::Combat {
        GameState::Shopping
    } else {
        GameState::Combat
    }
}

/// The loot board key: a hidden board is shown and the game moves to the
/// board screen; a shown board is hidden and the game goes back to combat.
/// Returns whether the board is now shown, and the new screen.
pub fn loot_board_toggle(board_shown: bool) -> (r: (bool, GameState))
    ensures
        r == if board_shown {
            (false, GameState::Combat)
        } else {
            (true, GameState::Ui)
        },
{
    if board_shown {
        (false, GameState::Combat)
    } else {
        (true, GameState::Ui)
    }
}

/// The screen after the player's health is checked: a player without
/// health ends the run.
pub fn after_health_check(health: u32) -> (r: Option<GameState>)
    ensures
        r == if health == 0 {
            Some(GameState::End)
        } else {
            None::<GameState>
        },
{
    if health == 0 {
        Some(GameState::End)
    } else {
        None
    }
}

/// Confirming on the end or win screen goes back to the main menu.
pub fn end_screen_confirm() -> (r: GameState)
    ensures
        r == GameState::MainMenu,
{
    GameState::MainMenu
}

} // verus!
