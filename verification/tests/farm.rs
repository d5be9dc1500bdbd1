use rusty_farm::crop::{Crop, CropType, MAX_CROP_STAGE};
use rusty_farm::game_state::{
    consume_next, game_ui_action, load_menu_action, loading_successor, main_menu_action,
    pause_menu_action, pause_requested, GameButton, GameState, MainMenuButton, MainMenuState,
    NextState, OldState, PauseMenuItem,
};
use rusty_farm::gate::Gate;
use rusty_farm::player::{
    harvest_target, movement_clip, movement_intent, step_within_bounds, HighlightAction, Key,
    Player, PLAYER_RUNNING_VEL, PLAYER_WALKING_VEL,
};
use rusty_farm::clip::Direction;
use rusty_farm::save::{plan_save, slot_file, SaveGameMetaData, SaveGames, SaveName};
use rusty_farm::world::{clamp_camera, scenery_depth};

#[test]
fn crop_atlas_names() {
    assert_eq!(CropType::Corn.atlas_name(), "corn_growth");
    assert_eq!(CropType::CornHighlighted.atlas_name(), "corn_growth_highlighted");
    assert_eq!(CropType::Potato.atlas_name(), "potato_growth");
    assert_eq!(CropType::Carrot.atlas_name(), "carrot_growth");
    assert_eq!(CropType::Cabbage.atlas_name(), "cabbage_growth");
    assert_eq!(CropType::Dead.atlas_name(), "dead_crop");
    assert_eq!(CropType::DeadHighlighted.atlas_name(), "dead_crop_highlighted");
}

#[test]
fn crop_highlight_twins() {
    assert_eq!(CropType::Corn.to_highlighted(), CropType::CornHighlighted);
    assert_eq!(CropType::CornHighlighted.to_highlighted(), CropType::CornHighlighted);
    assert_eq!(CropType::CornHighlighted.to_normal(), CropType::Corn);
    assert_eq!(CropType::Dead.to_highlighted(), CropType::DeadHighlighted);
    assert_eq!(CropType::DeadHighlighted.to_normal(), CropType::Dead);
    assert_eq!(CropType::Potato.to_normal(), CropType::Potato);
}

#[test]
fn crop_duration_ranges() {
    for _ in 0..50 {
        let d = CropType::Corn.duration();
        assert!((45..65).contains(&d));
        let d = CropType::Potato.duration();
        assert!((50..75).contains(&d));
        let d = CropType::Carrot.duration();
        assert!((80..100).contains(&d));
        let d = CropType::Cabbage.duration();
        assert!((100..125).contains(&d));
        assert_eq!(CropType::Dead.duration(), 1);
        let d = CropType::duration_from(&CropType::Corn);
        assert!((45..65).contains(&d));
    }
}

#[test]
fn crop_grows_to_last_stage() {
    let mut crop = Crop::new(CropType::Corn);
    assert_eq!(crop.stage, 1);
    // No growth while the timer is still running.
    assert_eq!(crop.grow(false), None);
    assert_eq!(crop.stage, 1);
    for expected in 1..MAX_CROP_STAGE {
        assert_eq!(crop.grow(true), Some(expected - 1));
        assert_eq!(crop.stage, expected + 1);
    }
    // Fully grown: further timer ticks change nothing.
    assert_eq!(crop.grow(true), None);
    assert_eq!(crop.stage, MAX_CROP_STAGE);
}

#[test]
fn dead_crop_never_grows() {
    let mut crop = Crop::new(CropType::Dead);
    assert_eq!(crop.grow(true), None);
    assert_eq!(crop.stage, 1);
}

#[test]
fn trampling_kills_within_chance() {
    let mut crop = Crop::new(CropType::Corn);
    assert!(crop.trample(30));
    assert_eq!(crop.crop_type, CropType::Dead);
    assert!(crop.in_collision);
    // A crop already stepped on cannot die again from the same stay.
    let mut crop = Crop::new(CropType::Corn);
    assert!(crop.trample(10));
    assert!(!crop.trample(10));
    // A roll above the kill chance leaves the crop alive.
    let mut crop = Crop::new(CropType::Corn);
    assert!(!crop.trample(31));
    assert_eq!(crop.crop_type, CropType::Corn);
    assert!(crop.in_collision);
    crop.clear_contact();
    assert!(!crop.in_collision);
}

#[test]
fn stepping_with_random_roll_keeps_invariants() {
    for _ in 0..50 {
        let mut crop = Crop::new(CropType::Corn);
        let died = crop.step_on();
        assert!(crop.in_collision);
        assert_eq!(crop.stage, 1);
        if died {
            assert_eq!(crop.crop_type, CropType::Dead);
        } else {
            assert_eq!(crop.crop_type, CropType::Corn);
        }
        // Once in collision, a second step never kills.
        assert!(!crop.step_on());
    }
}

#[test]
fn highlight_follows_the_player() {
    let mut player = Player::default();
    // Walking up to crop 5 highlights it.
    let acts = player.update_highlight(Some(5));
    assert_eq!(acts, vec![HighlightAction::Highlight(5)]);
    assert_eq!(player.crop_colliding, Some(5));
    // Staying on it does nothing more.
    let acts = player.update_highlight(Some(5));
    assert_eq!(acts, vec![]);
    // Moving to crop 9 highlights it and restores crop 5.
    let acts = player.update_highlight(Some(9));
    assert_eq!(acts, vec![HighlightAction::Highlight(9), HighlightAction::Normal(5)]);
    assert_eq!(player.crop_colliding, Some(9));
    assert_eq!(player.previous_crop_colliding, None);
    // Walking away restores crop 9.
    let acts = player.update_highlight(None);
    assert_eq!(acts, vec![HighlightAction::Normal(9)]);
    assert_eq!(player, Player::default());
    // Standing in the open does nothing.
    assert_eq!(player.update_highlight(None), vec![]);
}

#[test]
fn movement_reads_last_direction_key() {
    let (dir, running) = movement_intent(&vec![Key::W, Key::A, Key::D]);
    assert_eq!(dir, Some(Direction::Right));
    assert!(!running);
    let (dir, running) = movement_intent(&vec![Key::Shift, Key::S]);
    assert_eq!(dir, Some(Direction::Down));
    assert!(running);
    let (dir, running) = movement_intent(&vec![Key::Other]);
    assert_eq!(dir, None);
    assert!(!running);
    let (dir, _) = movement_intent(&vec![]);
    assert_eq!(dir, None);
}

#[test]
fn movement_picks_walk_or_run_clip() {
    assert_eq!(movement_clip(None, true), None);
    assert_eq!(movement_clip(Some(Direction::Up), false), Some("player_walking"));
    assert_eq!(movement_clip(Some(Direction::Up), true), Some("player_running"));
    assert!(PLAYER_WALKING_VEL < PLAYER_RUNNING_VEL);
}

#[test]
fn steps_stay_inside_the_level() {
    // Free space: the step happens.
    let (x, y) = step_within_bounds(500, 500, Direction::Right, 125, 0, 0, 1000, 1000);
    assert_eq!((x, y), (625, 500));
    let (x, y) = step_within_bounds(500, 500, Direction::Down, 90, 0, 0, 1000, 1000);
    assert_eq!((x, y), (500, 410));
    // A step that would cross the border is refused entirely.
    let (x, y) = step_within_bounds(950, 500, Direction::Right, 90, 0, 0, 1000, 1000);
    assert_eq!((x, y), (950, 500));
    let (x, y) = step_within_bounds(50, 500, Direction::Left, 90, 0, 0, 1000, 1000);
    assert_eq!((x, y), (50, 500));
}

#[test]
fn harvest_takes_crop_underfoot() {
    assert_eq!(harvest_target(true, Some(3)), Some(3));
    assert_eq!(harvest_target(true, None), None);
    assert_eq!(harvest_target(false, Some(3)), None);
}

#[test]
fn gate_opens_and_closes() {
    let mut gate = Gate::default();
    // The registry has no answer yet: nothing happens.
    assert_eq!(gate.tick(true, None), None);
    assert_eq!(gate, Gate::default());
    // A gate mid-animation stays as it is.
    assert_eq!(gate.tick(true, Some(true)), None);
    // Player arrives at an idle, closed gate: it opens.
    assert_eq!(gate.tick(true, Some(false)), Some("gate_opening"));
    assert!(gate.open && gate.in_collision);
    // Staying in the sensor keeps it open.
    assert_eq!(gate.tick(true, Some(false)), None);
    // Leaving closes it.
    assert_eq!(gate.tick(false, Some(false)), Some("gate_closing"));
    assert!(!gate.open && !gate.in_collision);
    // Staying away does nothing.
    assert_eq!(gate.tick(false, Some(false)), None);
}

#[test]
fn menu_buttons_drive_the_state_machine() {
    let new_game = main_menu_action(MainMenuButton::NewGame);
    assert_eq!(new_game.set_state, Some(GameState::Unload));
    assert_eq!(new_game.queue_next, Some(GameState::LoadingLdtk));
    assert_eq!(new_game.set_menu, Some(MainMenuState::NotActive));
    assert!(!new_game.exit);
    let load = main_menu_action(MainMenuButton::LoadGame);
    assert_eq!(load.queue_next, Some(GameState::MainMenu));
    assert_eq!(load.set_menu, Some(MainMenuState::LoadingLoadGame));
    assert!(main_menu_action(MainMenuButton::Exit).exit);

    let (resume, close) = pause_menu_action(PauseMenuItem::Resume);
    assert_eq!(resume.set_state, Some(GameState::Game));
    assert!(close);
    let (to_main, close) = pause_menu_action(PauseMenuItem::ExitToMain);
    assert_eq!(to_main.set_state, Some(GameState::Unload));
    assert_eq!(to_main.queue_next, Some(GameState::LoadingMainMenu));
    assert!(close);
    let (quit, close) = pause_menu_action(PauseMenuItem::Exit);
    assert!(quit.exit);
    assert!(!close);
}

#[test]
fn load_menu_escape_wins_over_click() {
    let (out, picked) = load_menu_action(true, Some(String::from("save2.rson")));
    assert_eq!(out.queue_next, Some(GameState::LoadingMainMenu));
    assert_eq!(picked, None);
    let (out, picked) = load_menu_action(false, Some(String::from("save2.rson")));
    assert_eq!(out.queue_next, Some(GameState::LoadingLdtk));
    assert_eq!(picked, Some(String::from("save2.rson")));
    let (out, picked) = load_menu_action(false, None);
    assert_eq!(out.set_state, None);
    assert_eq!(picked, None);
}

#[test]
fn loading_phases_chain_to_the_game() {
    // A fresh start loads assets and atlases and lands in the menu.
    assert_eq!(loading_successor(GameState::LoadingAssets), Some(GameState::LoadingAtlases));
    assert_eq!(loading_successor(GameState::LoadingAtlases), Some(GameState::LoadingMainMenu));
    assert_eq!(loading_successor(GameState::LoadingMainMenu), Some(GameState::MainMenu));
    // A new game runs from the level load into the game proper.
    let mut state = GameState::LoadingLdtk;
    for expected in [
        GameState::LoadingAnimations,
        GameState::LoadingGameMenu,
        GameState::LoadingGame,
        GameState::Game,
    ] {
        state = loading_successor(state).unwrap();
        assert_eq!(state, expected);
    }
    // A loaded save re-enters at animation setup.
    assert_eq!(loading_successor(GameState::LoadingSave), Some(GameState::LoadingAnimations));
    // Steady states wait for events.
    assert_eq!(loading_successor(GameState::Game), None);
    assert_eq!(loading_successor(GameState::MainMenu), None);
    assert_eq!(loading_successor(GameState::Unload), None);
}

#[test]
fn inventory_button_opens_the_inventory() {
    let (state, show) = game_ui_action(GameButton::Inventory);
    assert_eq!(state, Some(GameState::Inventory));
    assert!(show);
    assert_eq!(loading_successor(GameState::LoadingInventory), Some(GameState::Inventory));
}

#[test]
fn pause_only_from_the_game() {
    assert_eq!(pause_requested(true, GameState::Game), Some(GameState::LoadingPause));
    assert_eq!(pause_requested(true, GameState::MainMenu), None);
    assert_eq!(pause_requested(false, GameState::Game), None);
}

#[test]
fn unload_consumes_the_queued_state() {
    let mut next = NextState(GameState::LoadingLdtk);
    assert_eq!(consume_next(&mut next), GameState::LoadingLdtk);
    assert_eq!(next.0, GameState::LoadingAssets);
    let old = OldState::default();
    assert_eq!(old.game_state(), Some(&GameState::LoadingAssets));
    assert_eq!(OldState::NextState(GameState::Game).game_state(), None);
}

#[test]
fn save_name_and_path() {
    let fresh = SaveName::New;
    assert!(fresh.name().is_none());
    assert!(fresh.path().is_none());
    let named = SaveName::Load(String::from("save3.rson"));
    assert_eq!(named.name(), Some(String::from("save3.rson")));
    assert_eq!(named.path(), Some(String::from("saves/save3.rson")));
}

#[test]
fn first_save_claims_the_next_slot() {
    let mut save_name = SaveName::New;
    let mut games = SaveGames(vec![SaveGameMetaData {
        date: String::from("May 1 2023 at 10:00"),
        name: String::from("save1.rson"),
    }]);
    let date = String::from("June 2 2023 at 12:30");
    let path = plan_save(&mut save_name, &mut games, &date);
    assert_eq!(path, Some(String::from("saves/save2.rson")));
    assert_eq!(save_name.name(), Some(String::from("save2.rson")));
    assert_eq!(games.0.len(), 2);
    assert_eq!(games.0[1].name, "save2.rson");
    assert_eq!(games.0[1].date, date);
    // The older slot is untouched.
    assert_eq!(games.0[0].date, "May 1 2023 at 10:00");
}

#[test]
fn named_save_restamps_its_row() {
    let mut save_name = SaveName::Load(String::from("save1.rson"));
    let mut games = SaveGames(vec![
        SaveGameMetaData {
            date: String::from("May 1 2023 at 10:00"),
            name: String::from("save1.rson"),
        },
        SaveGameMetaData {
            date: String::from("May 3 2023 at 09:00"),
            name: String::from("save2.rson"),
        },
    ]);
    let date = String::from("June 2 2023 at 12:30");
    let path = plan_save(&mut save_name, &mut games, &date);
    assert_eq!(path, Some(String::from("saves/save1.rson")));
    assert_eq!(games.0.len(), 2);
    assert_eq!(games.0[0].date, date);
    assert_eq!(games.0[1].date, "May 3 2023 at 09:00");
}

#[test]
fn full_catalogue_refuses_a_new_save() {
    let mut save_name = SaveName::New;
    let mut rows = Vec::new();
    for k in 0..6 {
        rows.push(SaveGameMetaData { date: String::from("some day"), name: slot_file(k) });
    }
    let mut games = SaveGames(rows);
    let date = String::from("June 2 2023 at 12:30");
    assert_eq!(plan_save(&mut save_name, &mut games, &date), None);
    assert!(save_name.name().is_none());
    assert_eq!(games.0.len(), 6);
}

#[test]
fn camera_clamps_to_level() {
    // A 2000-wide level seen through a 600-wide window: the centre
    // stays in [300, 1700].
    assert_eq!(clamp_camera(1000, 0, 2000, 300), 1000);
    assert_eq!(clamp_camera(100, 0, 2000, 300), 300);
    assert_eq!(clamp_camera(1990, 0, 2000, 300), 1700);
    // A window wider than the level: the cap wins.
    assert_eq!(clamp_camera(500, 0, 400, 300), 100);
}

#[test]
fn scenery_sorts_around_the_player() {
    assert_eq!(scenery_depth(10, 20, 6), 5);
    assert_eq!(scenery_depth(10, 10, 6), 7);
    assert_eq!(scenery_depth(10, 5, 6), 7);
}
