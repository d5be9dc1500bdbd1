use rusty_farm::clip::{ClipDef, Direction, DirectionRows, Timing};
use rusty_farm::driver::AnimationEvent;
use rusty_farm::playback::ClipError;
use rusty_farm::registry::Animations;

fn rows(up: u32, down: u32, left: u32, right: u32) -> DirectionRows {
    DirectionRows { up, down, left, right }
}

fn walk_clip() -> ClipDef {
    ClipDef {
        name: String::from("walk"),
        frames: vec![0, 1, 2, 3, 4, 5],
        timing: Timing::Uniform(650),
        sheet: 11,
        sheet_cols: 8,
        sheet_rows: 8,
        rows: rows(8, 7, 6, 5),
        looping: true,
        locking: false,
        repeat: 0,
    }
}

fn harvest_clip() -> ClipDef {
    ClipDef {
        name: String::from("harvest"),
        frames: vec![0, 1, 2, 3],
        timing: Timing::PerFrame(vec![1, 300, 350, 375]),
        sheet: 22,
        sheet_cols: 4,
        sheet_rows: 4,
        rows: rows(4, 3, 2, 1),
        looping: false,
        locking: true,
        repeat: 1,
    }
}

fn frame_of(reg: &Animations, e: u64, name: &str) -> usize {
    reg.clip_state(e, &String::from(name)).unwrap().frame_pos
}

#[test]
fn uniform_clip_steps_through_frames() {
    // A uniform clip with duration D shows frame k after exactly k*D.
    let mut reg = Animations::new();
    reg.register(1, walk_clip()).unwrap();
    let walk = String::from("walk");
    reg.activate(1, &walk);
    for k in 0..6usize {
        assert_eq!(frame_of(&reg, 1, "walk"), k);
        reg.advance_all(650);
    }
    // Looping: after the sixth step it wraps to frame 0.
    assert_eq!(frame_of(&reg, 1, "walk"), 0);
}

#[test]
fn single_repeat_clip_finishes_once_exhausted() {
    let mut reg = Animations::new();
    reg.register(1, harvest_clip()).unwrap();
    let harvest = String::from("harvest");
    reg.activate(1, &harvest);
    assert_eq!(reg.is_active(1), Some(true));
    // Total is 1 + 300 + 350 + 375 = 1026 ms; one ms short is not done.
    reg.advance_all(1025);
    assert_eq!(reg.is_active(1), Some(true));
    assert!(!reg.clip_state(1, &harvest).unwrap().finished);
    // The last ms exhausts the single repeat: finished, active slot empty.
    reg.advance_all(1);
    assert!(reg.clip_state(1, &harvest).unwrap().finished);
    assert_eq!(reg.is_active(1), Some(false));
}

#[test]
fn looping_clip_never_finishes_and_cycles() {
    let mut reg = Animations::new();
    reg.register(1, walk_clip()).unwrap();
    let walk = String::from("walk");
    reg.activate(1, &walk);
    let period = 6 * 650u64;
    reg.advance_all(123);
    let reference = frame_of(&reg, 1, "walk");
    for _ in 0..5 {
        reg.advance_all(period);
        assert_eq!(frame_of(&reg, 1, "walk"), reference);
        assert!(!reg.clip_state(1, &walk).unwrap().finished);
        assert_eq!(reg.is_active(1), Some(true));
    }
}

#[test]
fn locked_playing_clip_blocks_activation() {
    let mut reg = Animations::new();
    reg.register(1, walk_clip()).unwrap();
    reg.register(1, harvest_clip()).unwrap();
    let walk = String::from("walk");
    let harvest = String::from("harvest");
    reg.activate(1, &harvest);
    reg.advance_all(100);
    let frame_before = frame_of(&reg, 1, "harvest");
    // The harvest clip is locked and still playing: walk is dropped.
    reg.activate(1, &walk);
    assert_eq!(reg.active_name(1).unwrap(), "harvest");
    assert_eq!(frame_of(&reg, 1, "harvest"), frame_before);
}

#[test]
fn activation_without_registration_is_noop() {
    let mut reg = Animations::new();
    assert_eq!(reg.is_active(7), None);
    reg.activate(7, &String::from("walk"));
    assert_eq!(reg.is_active(7), None);
    assert!(!reg.is_registered(7));
    // A registered entity without that clip name is also left alone.
    reg.register(1, walk_clip()).unwrap();
    reg.activate(1, &String::from("no_such_clip"));
    assert_eq!(reg.is_active(1), Some(false));
}

#[test]
fn per_frame_schedule_at_310ms() {
    // Durations [1, 300, 350, 375] ms over frames [0, 1, 2, 3]: at
    // 310 ms, frame 0 took [0,1), frame 1 took [1,301), so 310 lies
    // 9 ms into frame 2's window.
    let mut reg = Animations::new();
    reg.register(1, harvest_clip()).unwrap();
    let harvest = String::from("harvest");
    reg.activate(1, &harvest);
    reg.advance_all(310);
    assert_eq!(frame_of(&reg, 1, "harvest"), 2);
}

#[test]
fn per_frame_window_boundaries() {
    // Window starts at the prefix sums 0, 1, 301, 651 of the
    // durations [1, 300, 350, 375].
    let mut reg = Animations::new();
    reg.register(1, harvest_clip()).unwrap();
    let harvest = String::from("harvest");
    reg.activate(1, &harvest);
    assert_eq!(frame_of(&reg, 1, "harvest"), 0);
    reg.advance_all(1);
    assert_eq!(frame_of(&reg, 1, "harvest"), 1);
    reg.advance_all(300);
    assert_eq!(frame_of(&reg, 1, "harvest"), 2);
    reg.advance_all(350);
    assert_eq!(frame_of(&reg, 1, "harvest"), 3);
}

#[test]
fn queries_on_unknown_names_are_none() {
    let mut reg = Animations::new();
    assert!(reg.clip_state(1, &String::from("walk")).is_none());
    reg.register(1, walk_clip()).unwrap();
    assert!(reg.clip_state(1, &String::from("walk")).is_some());
    assert!(reg.clip_state(1, &String::from("sprint")).is_none());
    assert!(reg.clip_repeats_left(2, &String::from("walk")).is_none());
    assert!(reg.active_name(1).is_none());
}

#[test]
fn harvest_locks_then_walk_resumes() {
    // End to end: register walk and harvest, play harvest, see walk
    // dropped while the lock holds, then succeed once it finished.
    let mut reg = Animations::new();
    reg.register(1, walk_clip()).unwrap();
    reg.register(1, harvest_clip()).unwrap();
    let walk = String::from("walk");
    let harvest = String::from("harvest");

    reg.tick(&vec![AnimationEvent::Play { entity: 1, name: harvest.clone() }], 0);
    assert_eq!(reg.is_active(1), Some(true));
    assert_eq!(reg.active_name(1).unwrap(), "harvest");

    reg.tick(&vec![AnimationEvent::Play { entity: 1, name: walk.clone() }], 310);
    assert_eq!(reg.active_name(1).unwrap(), "harvest");
    assert_eq!(frame_of(&reg, 1, "harvest"), 2);

    // 310 + 716 = 1026 ms: the harvest total elapses, the slot clears.
    reg.tick(&vec![], 716);
    assert_eq!(reg.is_active(1), Some(false));

    reg.tick(&vec![AnimationEvent::Play { entity: 1, name: walk.clone() }], 0);
    assert_eq!(reg.is_active(1), Some(true));
    assert_eq!(reg.active_name(1).unwrap(), "walk");
}

#[test]
fn events_apply_before_advancement() {
    // An event and a delta in one tick: the clip advances from its
    // rewound start, not from the old cursor.
    let mut reg = Animations::new();
    reg.register(1, walk_clip()).unwrap();
    let walk = String::from("walk");
    reg.activate(1, &walk);
    reg.advance_all(2 * 650);
    assert_eq!(frame_of(&reg, 1, "walk"), 2);
    reg.tick(&vec![AnimationEvent::Play { entity: 1, name: walk.clone() }], 650);
    assert_eq!(frame_of(&reg, 1, "walk"), 1);
}

#[test]
fn reset_releases_a_locked_clip() {
    let mut reg = Animations::new();
    reg.register(1, walk_clip()).unwrap();
    reg.register(1, harvest_clip()).unwrap();
    let walk = String::from("walk");
    let harvest = String::from("harvest");
    reg.activate(1, &harvest);
    reg.advance_all(500);
    reg.activate(1, &walk);
    assert_eq!(reg.active_name(1).unwrap(), "harvest");
    reg.tick(&vec![AnimationEvent::Reset { entity: 1, name: harvest.clone() }], 0);
    assert_eq!(reg.is_active(1), Some(false));
    assert_eq!(frame_of(&reg, 1, "harvest"), 0);
    reg.activate(1, &walk);
    assert_eq!(reg.active_name(1).unwrap(), "walk");
}

#[test]
fn registration_is_idempotent_and_validated() {
    let mut reg = Animations::new();
    assert_eq!(reg.register(1, walk_clip()), Ok(()));
    // Same name again: silent no-op.
    let mut again = walk_clip();
    again.timing = Timing::Uniform(999);
    assert_eq!(reg.register(1, again), Ok(()));
    let walk = String::from("walk");
    reg.activate(1, &walk);
    reg.advance_all(650);
    // Still the first definition's 650 ms steps.
    assert_eq!(frame_of(&reg, 1, "walk"), 1);

    // An empty frame list is rejected.
    let mut empty = walk_clip();
    empty.name = String::from("empty");
    empty.frames = vec![];
    assert_eq!(reg.register(1, empty), Err(ClipError::NoFrames));
    // A per-frame list of the wrong length is rejected.
    let mut skewed = harvest_clip();
    skewed.name = String::from("skewed");
    skewed.timing = Timing::PerFrame(vec![100, 100]);
    assert_eq!(reg.register(1, skewed), Err(ClipError::TimingMismatch));
    // The rejected registrations left the running clip alone.
    assert_eq!(reg.is_active(1), Some(true));
    assert_eq!(reg.active_name(1).unwrap(), "walk");
}

#[test]
fn zero_duration_frame_is_skipped() {
    // The first frame lasts 0 ms: it owns no time at all, so the
    // clip starts directly on the second frame.
    let mut reg = Animations::new();
    let clip = ClipDef {
        name: String::from("snap"),
        frames: vec![0, 1],
        timing: Timing::PerFrame(vec![0, 100]),
        sheet: 1,
        sheet_cols: 2,
        sheet_rows: 1,
        rows: rows(0, 0, 0, 0),
        looping: true,
        locking: false,
        repeat: 0,
    };
    reg.register(1, clip).unwrap();
    reg.activate(1, &String::from("snap"));
    assert_eq!(frame_of(&reg, 1, "snap"), 1);
}

#[test]
fn zero_total_clip_finishes_at_once() {
    // Every frame instantaneous and a single repeat: the clip is
    // finished as soon as it starts, and the first tick clears it.
    let mut reg = Animations::new();
    let clip = ClipDef {
        name: String::from("instant"),
        frames: vec![0, 1],
        timing: Timing::PerFrame(vec![0, 0]),
        sheet: 1,
        sheet_cols: 2,
        sheet_rows: 1,
        rows: rows(0, 0, 0, 0),
        looping: false,
        locking: false,
        repeat: 1,
    };
    reg.register(1, clip).unwrap();
    let name = String::from("instant");
    reg.activate(1, &name);
    assert!(reg.clip_state(1, &name).unwrap().finished);
    reg.advance_all(0);
    assert_eq!(reg.is_active(1), Some(false));
}

#[test]
fn repeat_count_replays_cycles() {
    let mut reg = Animations::new();
    let clip = ClipDef {
        name: String::from("thrice"),
        frames: vec![0, 1],
        timing: Timing::Uniform(100),
        sheet: 1,
        sheet_cols: 2,
        sheet_rows: 1,
        rows: rows(0, 0, 0, 0),
        looping: false,
        locking: false,
        repeat: 3,
    };
    reg.register(1, clip).unwrap();
    let name = String::from("thrice");
    reg.activate(1, &name);
    assert_eq!(reg.clip_repeats_left(1, &name), Some(3));
    reg.advance_all(250);
    // One full cycle consumed, 50 ms into the second: frame 0 again.
    assert_eq!(frame_of(&reg, 1, "thrice"), 0);
    assert_eq!(reg.clip_repeats_left(1, &name), Some(2));
    reg.advance_all(349);
    assert_eq!(reg.is_active(1), Some(true));
    reg.advance_all(1);
    assert_eq!(reg.is_active(1), Some(false));
    assert!(reg.clip_state(1, &name).unwrap().finished);
}

#[test]
fn render_combines_row_and_column() {
    let mut reg = Animations::new();
    reg.register(1, walk_clip()).unwrap();
    let walk = String::from("walk");
    assert!(reg.render(1, Direction::Down).is_none());
    reg.activate(1, &walk);
    reg.advance_all(2 * 650);
    // Frame position 2 shows column 2; facing down uses row 7 of an
    // 8-column sheet.
    let out = reg.render(1, Direction::Down).unwrap();
    assert_eq!(out.sheet, 11);
    assert_eq!(out.index, 7 * 8 + 2);
    assert!(!out.flip_x);
    let up = reg.render(1, Direction::Up).unwrap();
    assert_eq!(up.index, 8 * 8 + 2);
}

#[test]
fn shared_row_mirrors_when_facing_left() {
    let mut reg = Animations::new();
    let clip = ClipDef {
        name: String::from("slide"),
        frames: vec![3],
        timing: Timing::Uniform(100),
        sheet: 9,
        sheet_cols: 4,
        sheet_rows: 2,
        rows: rows(0, 0, 1, 1),
        looping: true,
        locking: false,
        repeat: 0,
    };
    reg.register(1, clip).unwrap();
    reg.activate(1, &String::from("slide"));
    let left = reg.render(1, Direction::Left).unwrap();
    assert!(left.flip_x);
    assert_eq!(left.index, 1 * 4 + 3);
    let right = reg.render(1, Direction::Right).unwrap();
    assert!(!right.flip_x);
    assert_eq!(right.index, 1 * 4 + 3);
}

#[test]
fn entities_are_independent() {
    let mut reg = Animations::new();
    reg.register(1, walk_clip()).unwrap();
    reg.register(2, walk_clip()).unwrap();
    let walk = String::from("walk");
    reg.activate(1, &walk);
    reg.advance_all(650);
    assert_eq!(frame_of(&reg, 1, "walk"), 1);
    assert_eq!(reg.is_active(2), Some(false));
    assert_eq!(frame_of(&reg, 2, "walk"), 0);
}
