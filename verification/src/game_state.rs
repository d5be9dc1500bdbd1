//! The game's top-level state machine and the menu decisions that
//! drive it: what each button or keypress does to the current state,
//! the state to enter after an unload pass, and whether the process
//! should exit.

use vstd::prelude::*;

verus! {

/// The flat top-level game state.
#[derive(Clone, Copy, Debug, PartialEq, Eq, Hash, Structural, Default)]
pub enum GameState {
    #[default]
    LoadingAssets,
    LoadingAtlases,
    LoadingLdtk,
    LoadingSave,
    LoadingNewGame,
    LoadingAnimations,
    LoadingGameMenu,
    LoadingGame,
    Game,
    LoadingInventory,
    Inventory,
    LoadingPause,
    Pause,
    LoadingMainMenu,
    MainMenu,
    Unload,
    Saving,
}

/// Which screen of the main menu is showing.
#[derive(Clone, Copy, Debug, PartialEq, Eq, Hash, Structural, Default)]
pub enum MainMenuState {
    #[default]
    NotActive,
    Landing,
    LoadingLoadGame,
    LoadGame,
}

/// The state the game continues to once the unload pass has torn the
/// world down.
#[derive(Clone, Copy, Debug, PartialEq, Eq, Structural, Default)]
pub struct NextState(pub GameState);

/// The last state the state-change logger saw.
#[derive(Clone, Copy, Debug, PartialEq, Eq, Structural)]
pub enum OldState {
    GameState(GameState),
    NextState(GameState),
}

impl OldState {
    /// The logger starts out in the game's starting state.
    pub fn default() -> (r: OldState)
        ensures
            r == OldState::GameState(GameState::LoadingAssets),
    {
        OldState::GameState(GameState::LoadingAssets)
    }

    /// The remembered game state, if this is one.
    pub fn game_state(&self) -> (r: Option<&GameState>)
        ensures
            match self {
                OldState::GameState(s) => r == Some(s),
                _ => r is None,
            },
    {
        match self {
            OldState::GameState(game_state) => Some(game_state),
            _ => None,
        }
    }
}

/// Takes the state to continue to out of `next`, leaving the default
/// behind — the unload pass's last step.
pub fn consume_next(next: &mut NextState) -> (s: GameState)
    ensures
        s == old(next).0,
        final(next).0 == GameState::LoadingAssets,
{
    let s = next.0;
    next.0 = GameState::LoadingAssets;
    s
}

/// A button on the main menu's landing screen.
#[derive(Clone, Copy, Debug, PartialEq, Eq, Structural)]
pub enum MainMenuButton {
    NewGame,
    LoadGame,
    Exit,
}

/// A row of the pause menu.
#[derive(Clone, Copy, Debug, PartialEq, Eq, Structural)]
pub enum PauseMenuItem {
    Resume,
    ExitToMain,
    Exit,
}

/// What a menu decision asks the surrounding game loop to do.
#[derive(Clone, Copy, Debug, PartialEq, Eq, Structural)]
pub struct MenuOutcome {
    /// State to switch to now, if any.
    pub set_state: Option<GameState>,
    /// State to continue to after the unload pass, if one is queued.
    pub queue_next: Option<GameState>,
    /// Main-menu screen to switch to, if any.
    pub set_menu: Option<MainMenuState>,
    /// Quit the whole game.
    pub exit: bool,
}

/// What a click on a landing-screen button does: a new game tears the
/// world down and loads the level, the load-game screen opens over
/// the menu, and exit quits.
pub fn main_menu_action(button: MainMenuButton) -> (r: MenuOutcome)
    ensures
        button == MainMenuButton::NewGame ==> r == (MenuOutcome {
            set_state: Some(GameState::Unload),
            queue_next: Some(GameState::LoadingLdtk),
            set_menu: Some(MainMenuState::NotActive),
            exit: false,
        }),
        button == MainMenuButton::LoadGame ==> r == (MenuOutcome {
            set_state: Some(GameState::Unload),
            queue_next: Some(GameState::MainMenu),
            set_menu: Some(MainMenuState::LoadingLoadGame),
            exit: false,
        }),
        button == MainMenuButton::Exit ==> r == (MenuOutcome {
            set_state: None,
            queue_next: None,
            set_menu: None,
            exit: true,
        }),
{
    match button {
        MainMenuButton::NewGame => MenuOutcome {
            set_state: Some(GameState::Unload),
            queue_next: Some(GameState::LoadingLdtk),
            set_menu: Some(MainMenuState::NotActive),
            exit: false,
        },
        MainMenuButton::LoadGame => MenuOutcome {
            set_state: Some(GameState::Unload),
            queue_next: Some(GameState::MainMenu),
            set_menu: Some(MainMenuState::LoadingLoadGame),
            exit: false,
        },
        MainMenuButton::Exit => MenuOutcome {
            set_state: None,
            queue_next: None,
            set_menu: None,
            exit: true,
        },
    }
}

/// What a click on a pause-menu row does: resume returns to the game,
/// exit-to-main tears the world down towards the main menu, exit
/// quits. The first two also close the pause menu.
pub fn pause_menu_action(item: PauseMenuItem) -> (r: (MenuOutcome, bool))
    ensures
        item == PauseMenuItem::Resume ==> r == (
            MenuOutcome {
                set_state: Some(GameState::Game),
                queue_next: None,
                set_menu: None,
                exit: false,
            },
            true,
        ),
        item == PauseMenuItem::ExitToMain ==> r == (
            MenuOutcome {
                set_state: Some(GameState::Unload),
                queue_next: Some(GameState::LoadingMainMenu),
                set_menu: None,
                exit: false,
            },
            true,
        ),
        item == PauseMenuItem::Exit ==> r == (
            MenuOutcome { set_state: None, queue_next: None, set_menu: None, exit: true },
            false,
        ),
{
    match item {
        PauseMenuItem::Resume => (
            MenuOutcome {
                set_state: Some(GameState::Game),
                queue_next: None,
                set_menu: None,
                exit: false,
            },
            true,
        ),
        PauseMenuItem::ExitToMain => (
            MenuOutcome {
                set_state: Some(GameState::Unload),
                queue_next: Some(GameState::LoadingMainMenu),
                set_menu: None,
                exit: false,
            },
            true,
        ),
        PauseMenuItem::Exit => (
            MenuOutcome { set_state: None, queue_next: None, set_menu: None, exit: true },
            false,
        ),
    }
}

/// What the load-game screen does with this tick's input: the escape
/// key backs out to the landing screen; picking a save queues that
/// save for loading and tears the world down towards the level.
/// Escape wins over a click. Returns the outcome and the save-file
/// name to load, if one was picked.
pub fn load_menu_action(escape_pressed: bool, clicked: Option<String>) -> (r: (
    MenuOutcome,
    Option<String>,
))
    ensures
        escape_pressed ==> r == (
            MenuOutcome {
                set_state: Some(GameState::Unload),
                queue_next: Some(GameState::LoadingMainMenu),
                set_menu: Some(MainMenuState::NotActive),
                exit: false,
            },
            Option::<String>::None,
        ),
        !escape_pressed && clicked is Some ==> ({
            &&& r.0 == (MenuOutcome {
                set_state: Some(GameState::Unload),
                queue_next: Some(GameState::LoadingLdtk),
                set_menu: Some(MainMenuState::NotActive),
                exit: false,
            })
            &&& r.1 == clicked
        }),
        !escape_pressed && clicked is None ==> r == (
            MenuOutcome { set_state: None, queue_next: None, set_menu: None, exit: false },
            Option::<String>::None,
        ),
{
    if escape_pressed {
        (
            MenuOutcome {
                set_state: Some(GameState::Unload),
                queue_next: Some(GameState::LoadingMainMenu),
                set_menu: Some(MainMenuState::NotActive),
                exit: false,
            },
            None,
        )
    } else {
        match clicked {
            Some(name) => (
                MenuOutcome {
                    set_state: Some(GameState::Unload),
                    queue_next: Some(GameState::LoadingLdtk),
                    set_menu: Some(MainMenuState::NotActive),
                    exit: false,
                },
                Some(name),
            ),
            None => (
                MenuOutcome { set_state: None, queue_next: None, set_menu: None, exit: false },
                None,
            ),
        }
    }
}

/// A button of the in-game interface.
#[derive(Clone, Copy, Debug, PartialEq, Eq, Structural)]
pub enum GameButton {
    Inventory,
}

/// What a click on an in-game button does: the inventory button opens
/// the inventory screen and makes its panel visible.
pub fn game_ui_action(button: GameButton) -> (r: (Option<GameState>, bool))
    ensures
        button == GameButton::Inventory ==> r == (Some(GameState::Inventory), true),
{
    match button {
        GameButton::Inventory => (Some(GameState::Inventory), true),
    }
}

/// The state each loading phase hands over to once its setup pass has
/// done its work: assets load in stages up to the main menu, a level
/// load runs through animation setup and the in-game menu into the
/// game, a save load re-enters at animation setup, and the pause
/// screen opens once built. `None` for states that are not loading
/// phases: those wait for events instead.
pub fn loading_successor(state: GameState) -> (r: Option<GameState>)
    ensures
        r == match state {
            GameState::LoadingAssets => Some(GameState::LoadingAtlases),
            GameState::LoadingAtlases => Some(GameState::LoadingMainMenu),
            GameState::LoadingLdtk => Some(GameState::LoadingAnimations),
            GameState::LoadingSave => Some(GameState::LoadingAnimations),
            GameState::LoadingAnimations => Some(GameState::LoadingGameMenu),
            GameState::LoadingGameMenu => Some(GameState::LoadingGame),
            GameState::LoadingGame => Some(GameState::Game),
            GameState::LoadingMainMenu => Some(GameState::MainMenu),
            GameState::LoadingPause => Some(GameState::Pause),
            GameState::LoadingInventory => Some(GameState::Inventory),
            _ => Option::<GameState>::None,
        },
{
    match state {
        GameState::LoadingAssets => Some(GameState::LoadingAtlases),
        GameState::LoadingAtlases => Some(GameState::LoadingMainMenu),
        GameState::LoadingLdtk => Some(GameState::LoadingAnimations),
        GameState::LoadingSave => Some(GameState::LoadingAnimations),
        GameState::LoadingAnimations => Some(GameState::LoadingGameMenu),
        GameState::LoadingGameMenu => Some(GameState::LoadingGame),
        GameState::LoadingGame => Some(GameState::Game),
        GameState::LoadingMainMenu => Some(GameState::MainMenu),
        GameState::LoadingPause => Some(GameState::Pause),
        GameState::LoadingInventory => Some(GameState::Inventory),
        _ => None,
    }
}

/// Whether this tick's escape keypress pauses the game: only while
/// playing.
pub fn pause_requested(escape_pressed: bool, state: GameState) -> (r: Option<GameState>)
    ensures
        r == if escape_pressed && state == GameState::Game {
            Some(GameState::LoadingPause)
        } else {
            Option::<GameState>::None
        },
{
    if escape_pressed && state == GameState::Game {
        Some(GameState::LoadingPause)
    } else {
        None
    }
}

} // verus!
