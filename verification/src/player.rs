//! The player: movement decisions from the tick's pressed keys,
//! walking/running speed, which crop the player is about to harvest,
//! and the highlight bookkeeping for the crop the player stands
//! nearest to.
//!
//! Speeds and positions are in hundredths of a pixel, so a whole
//! tick's arithmetic stays in integers.

use vstd::prelude::*;

use crate::clip::Direction;

verus! {

/// Walking speed, in hundredths of a pixel per tick.
pub const PLAYER_WALKING_VEL: i64 = 90;

/// Running speed, in hundredths of a pixel per tick.
pub const PLAYER_RUNNING_VEL: i64 = 125;

/// The keys the movement pass cares about.
#[derive(Clone, Copy, Debug, PartialEq, Eq, Structural)]
pub enum Key {
    A,
    S,
    D,
    W,
    Shift,
    Other,
}

/// The facing direction the pressed keys ask for: each direction key
/// overrides the ones before it, so the last one pressed in the list
/// wins; `None` when no direction key is down.
pub open spec fn spec_intent_dir(keys: Seq<Key>) -> Option<Direction>
    decreases keys.len(),
{
    if keys.len() == 0 {
        None
    } else {
        match keys.last() {
            Key::A => Some(Direction::Left),
            Key::D => Some(Direction::Right),
            Key::W => Some(Direction::Up),
            Key::S => Some(Direction::Down),
            _ => spec_intent_dir(keys.drop_last()),
        }
    }
}

/// Whether a run key is among the pressed keys.
pub open spec fn spec_intent_running(keys: Seq<Key>) -> bool {
    exists|i: int| 0 <= i < keys.len() && keys[i] == Key::Shift
}

/// Reads the tick's pressed keys into a movement intent: the facing
/// direction (last direction key wins, `None` when still) and whether
/// the player is running.
pub fn movement_intent(keys: &Vec<Key>) -> (r: (Option<Direction>, bool))
    ensures
        r.0 == spec_intent_dir(keys@),
        r.1 == spec_intent_running(keys@),
{
    let mut dir: Option<Direction> = None;
    let mut running = false;
    let n = keys.len();
    let mut i: usize = 0;
    while i < n
        invariant
            n == keys@.len(),
            i <= n,
            dir == spec_intent_dir(keys@.take(i as int)),
            running == exists|k: int| 0 <= k < i && keys@[k] == Key::Shift,
        decreases n - i,
    {
        proof {
            assert(keys@.take(i as int + 1).drop_last() =~= keys@.take(i as int));
            assert(keys@.take(i as int + 1).last() == keys@[i as int]);
        }
        match keys[i] {
            Key::A => { dir = Some(Direction::Left) },
            Key::D => { dir = Some(Direction::Right) },
            Key::W => { dir = Some(Direction::Up) },
            Key::S => { dir = Some(Direction::Down) },
            Key::Shift => { running = true },
            Key::Other => {},
        }
        i = i + 1;
    }
    proof {
        assert(keys@.take(n as int) =~= keys@);
    }
    (dir, running)
}

/// The animation the movement pass requests: the running clip while a
/// run key is down, the walking clip otherwise, and nothing when the
/// player stands still.
pub fn movement_clip(dir: Option<Direction>, running: bool) -> (r: Option<&'static str>)
    ensures
        dir is None ==> r is None,
        dir is Some && running ==> (r matches Some(s) && s@ == "player_running"@),
        dir is Some && !running ==> (r matches Some(s) && s@ == "player_walking"@),
{
    if dir.is_none() {
        None
    } else if running {
        Some("player_running")
    } else {
        Some("player_walking")
    }
}

/// Unit step of a facing direction, x component.
pub open spec fn spec_dir_dx(dir: Direction) -> i64 {
    match dir {
        Direction::Left => -1i64,
        Direction::Right => 1i64,
        Direction::Up => 0i64,
        Direction::Down => 0i64,
    }
}

/// Unit step of a facing direction, y component.
pub open spec fn spec_dir_dy(dir: Direction) -> i64 {
    match dir {
        Direction::Up => 1i64,
        Direction::Down => -1i64,
        Direction::Left => 0i64,
        Direction::Right => 0i64,
    }
}

/// One movement step: the position moves `vel` sub-pixels along
/// `dir`, but only if that keeps it strictly inside the level's
/// bounds; otherwise it stays put.
pub fn step_within_bounds(
    x: i64,
    y: i64,
    dir: Direction,
    vel: i64,
    min_x: i64,
    min_y: i64,
    max_x: i64,
    max_y: i64,
) -> (r: (i64, i64))
    requires
        0 <= vel <= 0x10000,
        -0x4000_0000_0000_0000 <= x <= 0x4000_0000_0000_0000,
        -0x4000_0000_0000_0000 <= y <= 0x4000_0000_0000_0000,
    ensures
        ({
            let nx = x + spec_dir_dx(dir) * vel;
            let ny = y + spec_dir_dy(dir) * vel;
            if min_x < nx < max_x && min_y < ny < max_y {
                r.0 == nx && r.1 == ny
            } else {
                r == (x, y)
            }
        }),
{
    let dx: i64 = match dir {
        Direction::Left => -1,
        Direction::Right => 1,
        Direction::Up => 0,
        Direction::Down => 0,
    };
    let dy: i64 = match dir {
        Direction::Up => 1,
        Direction::Down => -1,
        Direction::Left => 0,
        Direction::Right => 0,
    };
    let nx = x + dx * vel;
    let ny = y + dy * vel;
    if min_x < nx && nx < max_x && min_y < ny && ny < max_y {
        (nx, ny)
    } else {
        (x, y)
    }
}

/// Which crop a harvest keypress takes: the one underfoot, if the
/// harvest key is down.
pub fn harvest_target(harvest_pressed: bool, underfoot: Option<u64>) -> (r: Option<u64>)
    ensures
        r == if harvest_pressed {
            underfoot
        } else {
            Option::<u64>::None
        },
{
    if harvest_pressed {
        underfoot
    } else {
        None
    }
}

/// A change of crop sprite the highlight pass asks the renderer to
/// make.
#[derive(Clone, Copy, Debug, PartialEq, Eq, Structural)]
pub enum HighlightAction {
    /// Swap this crop to its highlighted atlas.
    Highlight(u64),
    /// Swap this crop back to its plain atlas.
    Normal(u64),
}

/// The player's crop-highlight bookkeeping: which crop is currently
/// highlighted under the player, and which one was highlighted just
/// before.
#[derive(Clone, Copy, Debug, PartialEq, Eq, Structural, Default)]
pub struct Player {
    pub crop_colliding: Option<u64>,
    pub previous_crop_colliding: Option<u64>,
}

impl Player {
    /// One highlight pass. `hit` is the crop (if any) whose sensor
    /// the player's wide collider overlaps this tick. Returns the
    /// sprite swaps to apply: the newly reached crop is highlighted,
    /// and the one just left returns to normal.
    pub fn update_highlight(&mut self, hit: Option<u64>) -> (actions: Vec<HighlightAction>)
        ensures
            ({
                let acts = actions@;
                match (hit, old(self).crop_colliding) {
                    (Some(t), Some(c)) => {
                        &&& final(self).crop_colliding == Some(t)
                        &&& final(self).previous_crop_colliding is None
                        &&& acts == if c != t {
                            seq![HighlightAction::Highlight(t), HighlightAction::Normal(c)]
                        } else {
                            match old(self).previous_crop_colliding {
                                Some(p) => seq![HighlightAction::Normal(p)],
                                None => Seq::<HighlightAction>::empty(),
                            }
                        }
                    },
                    (Some(t), None) => {
                        &&& final(self).crop_colliding == Some(t)
                        &&& final(self).previous_crop_colliding is None
                        &&& acts == match old(self).previous_crop_colliding {
                            Some(p) => seq![
                                HighlightAction::Highlight(t),
                                HighlightAction::Normal(p),
                            ],
                            None => seq![HighlightAction::Highlight(t)],
                        }
                    },
                    (None, Some(c)) => {
                        &&& *final(self) == (Player {
                            crop_colliding: None,
                            previous_crop_colliding: None,
                        })
                        &&& acts == seq![HighlightAction::Normal(c)]
                    },
                    (None, None) => {
                        &&& *final(self) == *old(self)
                        &&& acts == Seq::<HighlightAction>::empty()
                    },
                }
            }),
    {
        let mut actions: Vec<HighlightAction> = Vec::new();
        match hit {
            Some(t) => {
                match self.crop_colliding {
                    Some(c) => {
                        if c != t {
                            self.crop_colliding = Some(t);
                            self.previous_crop_colliding = Some(c);
                            actions.push(HighlightAction::Highlight(t));
                        }
                    },
                    None => {
                        self.crop_colliding = Some(t);
                        actions.push(HighlightAction::Highlight(t));
                    },
                }
                match self.previous_crop_colliding {
                    Some(p) => {
                        self.previous_crop_colliding = None;
                        actions.push(HighlightAction::Normal(p));
                    },
                    None => {},
                }
            },
            None => {
                match self.crop_colliding {
                    Some(c) => {
                        self.previous_crop_colliding = None;
                        self.crop_colliding = None;
                        actions.push(HighlightAction::Normal(c));
                    },
                    None => {},
                }
            },
        }
        actions
    }
}

} // verus!
