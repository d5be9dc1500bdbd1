//! Static description of one animation clip and the mathematics of its
//! playback: an ordered list of frame (column) indices into a sprite
//! sheet, a duration for each frame in whole milliseconds, the sheet to
//! draw from, directional row offsets, and the looping / locking /
//! repeat policy.
//!
//! The playback model: a clip's frames partition one *cycle* of
//! `total_ms()` milliseconds into consecutive windows, frame `i`
//! owning the half-open window `[prefix_ms(i), prefix_ms(i + 1))`.
//! A frame of zero duration owns an empty window and is never shown.
//! `position_at(e)` gives the frame shown `e` milliseconds after the
//! clip started, wrapping whole cycles for looping or repeating clips
//! and reporting `finished` once a non-looping clip has consumed all
//! of its repeats.

use vstd::prelude::*;

verus! {

/// Facing direction of an entity, tracked separately from any clip.
#[derive(Clone, Copy, Debug, PartialEq, Eq, Structural)]
pub enum Direction {
    Up,
    Down,
    Left,
    Right,
}

/// Sprite-sheet row to use for each facing direction.
#[derive(Clone, Copy, Debug, PartialEq, Eq, Structural)]
pub struct DirectionRows {
    pub up: u32,
    pub down: u32,
    pub left: u32,
    pub right: u32,
}

impl DirectionRows {
    /// The row that a clip uses when the entity faces `dir`.
    pub open spec fn spec_row_for(self, dir: Direction) -> u32 {
        match dir {
            Direction::Up => self.up,
            Direction::Down => self.down,
            Direction::Left => self.left,
            Direction::Right => self.right,
        }
    }

    pub fn row_for(&self, dir: Direction) -> (r: u32)
        ensures
            r == self.spec_row_for(dir),
    {
        match dir {
            Direction::Up => self.up,
            Direction::Down => self.down,
            Direction::Left => self.left,
            Direction::Right => self.right,
        }
    }
}

/// Frame timing: one uniform duration for every frame, or one duration
/// per frame. Durations are whole milliseconds; a zero duration means
/// the frame is skipped instantly.
#[derive(Clone, Debug)]
pub enum Timing {
    Uniform(u32),
    PerFrame(Vec<u32>),
}

/// Immutable description of one named animation clip.
#[derive(Clone, Debug)]
pub struct ClipDef {
    /// Key under which the clip is registered.
    pub name: String,
    /// Sprite-sheet column shown at each playback step.
    pub frames: Vec<u32>,
    /// How long each playback step lasts.
    pub timing: Timing,
    /// Handle of the sprite sheet to draw from.
    pub sheet: u64,
    /// Number of columns in one row of the sheet.
    pub sheet_cols: u32,
    /// Number of rows in the sheet.
    pub sheet_rows: u32,
    /// Row to use for each facing direction.
    pub rows: DirectionRows,
    /// A looping clip restarts forever and never finishes.
    pub looping: bool,
    /// A locking clip cannot be preempted while it is playing.
    pub locking: bool,
    /// Number of full cycles a non-looping clip plays; 0 means
    /// infinitely many.
    pub repeat: u32,
}

/// Where playback stands some number of milliseconds into a clip:
/// which frame of the frame list is shown, whether the clip is done,
/// and how many full cycles have been consumed.
pub struct Playhead {
    pub finished: bool,
    pub frame: int,
    pub cycles_done: nat,
}

impl ClipDef {
    /// Number of playback steps in one cycle.
    pub open spec fn frame_count(self) -> nat {
        self.frames@.len()
    }

    /// Duration of playback step `i`, in milliseconds.
    pub open spec fn duration_of(self, i: int) -> u32 {
        match self.timing {
            Timing::Uniform(d) => d,
            Timing::PerFrame(ds) => ds@[i],
        }
    }

    /// Milliseconds from the start of a cycle to the start of playback
    /// step `i`: the sum of the first `i` durations.
    pub open spec fn prefix_ms(self, i: int) -> nat
        decreases i,
    {
        if i <= 0 {
            0
        } else {
            (self.prefix_ms(i - 1) + self.duration_of(i - 1)) as nat
        }
    }

    /// Length of one full cycle, in milliseconds.
    pub open spec fn total_ms(self) -> nat {
        self.prefix_ms(self.frame_count() as int)
    }

    /// A definition the registry accepts: at least one frame, few
    /// enough frames that one cycle fits in a 64-bit millisecond
    /// count, and a per-frame timing list that matches the frame list.
    pub open spec fn valid(self) -> bool {
        &&& 1 <= self.frames@.len() <= u32::MAX
        &&& match self.timing {
            Timing::Uniform(d) => true,
            Timing::PerFrame(ds) => ds@.len() == self.frames@.len(),
        }
    }

    /// The playback step whose window contains `rem`, searching from
    /// step `i`: the least `j >= i` with `rem < prefix_ms(j + 1)`.
    pub open spec fn frame_from(self, i: int, rem: nat) -> int
        decreases self.frame_count() - i,
    {
        if i < 0 || i >= self.frame_count() {
            i
        } else if rem < self.prefix_ms(i + 1) {
            i
        } else {
            self.frame_from(i + 1, rem)
        }
    }

    /// The playback step shown `rem` milliseconds into one cycle
    /// (meaningful for `rem < total_ms()`).
    pub open spec fn frame_at(self, rem: nat) -> int {
        self.frame_from(0, rem)
    }

    /// Where playback stands `e` milliseconds after the clip started.
    ///
    /// A cycle of zero total length has only empty windows: the clip
    /// rests on its last frame, finished at once unless it loops or
    /// repeats forever.
    pub open spec fn position_at(self, e: nat) -> Playhead {
        let n = self.frame_count() as int;
        let total = self.total_ms();
        if total == 0 {
            if self.looping || self.repeat == 0 {
                Playhead { finished: false, frame: n - 1, cycles_done: 0 }
            } else {
                Playhead { finished: true, frame: n - 1, cycles_done: self.repeat as nat }
            }
        } else {
            let cycles = e / total;
            let rem = e % total;
            if !self.looping && self.repeat != 0 && cycles >= self.repeat {
                Playhead { finished: true, frame: n - 1, cycles_done: self.repeat as nat }
            } else {
                Playhead { finished: false, frame: self.frame_at(rem), cycles_done: cycles }
            }
        }
    }

    /// Prefix sums of durations never decrease.
    pub proof fn lemma_prefix_monotone(self, i: int, j: int)
        requires
            i <= j,
        ensures
            self.prefix_ms(i) <= self.prefix_ms(j),
        decreases j - i,
    {
        if i < j {
            self.lemma_prefix_monotone(i, j - 1);
        }
    }

    /// Each prefix sum is at most `i` durations of at most `u32::MAX`
    /// milliseconds each.
    pub proof fn lemma_prefix_bound(self, i: int)
        requires
            0 <= i,
        ensures
            self.prefix_ms(i) <= i * (u32::MAX as nat),
        decreases i,
    {
        if i > 0 {
            self.lemma_prefix_bound(i - 1);
        }
    }

    /// One cycle of a valid clip fits comfortably in a `u64`
    /// millisecond count.
    pub proof fn lemma_total_fits(self)
        requires
            self.valid(),
        ensures
            self.total_ms() <= (u32::MAX as nat) * (u32::MAX as nat),
            self.total_ms() <= u64::MAX,
    {
        let n = self.frame_count() as int;
        let m = u32::MAX as nat;
        self.lemma_prefix_bound(n);
        vstd::arithmetic::mul::lemma_mul_inequality(n, m as int, m as int);
    }

    /// Searching from step `i`, the frame found for `rem` lies in
    /// `[i, frame_count)` and its window contains `rem`.
    pub proof fn lemma_frame_from_window(self, i: int, rem: nat)
        requires
            0 <= i <= self.frame_count(),
            self.prefix_ms(i) <= rem < self.total_ms(),
        ensures
            i <= self.frame_from(i, rem) < self.frame_count(),
            self.prefix_ms(self.frame_from(i, rem)) <= rem,
            rem < self.prefix_ms(self.frame_from(i, rem) + 1),
        decreases self.frame_count() - i,
    {
        let n = self.frame_count() as int;
        assert(i < n) by {
            if i == n {
                assert(self.prefix_ms(n) <= rem);
            }
        }
        if rem < self.prefix_ms(i + 1) {
        } else {
            self.lemma_frame_from_window(i + 1, rem);
        }
    }

    /// The frame shown `rem` milliseconds into a cycle is within the
    /// frame list and its window contains `rem`.
    pub proof fn lemma_frame_at_window(self, rem: nat)
        requires
            rem < self.total_ms(),
        ensures
            0 <= self.frame_at(rem) < self.frame_count(),
            self.prefix_ms(self.frame_at(rem)) <= rem,
            rem < self.prefix_ms(self.frame_at(rem) + 1),
    {
        self.lemma_frame_from_window(0, rem);
    }

    /// A step whose window contains `rem` is the step `frame_at`
    /// yields: windows are disjoint.
    pub proof fn lemma_frame_at_unique(self, k: int, rem: nat)
        requires
            0 <= k < self.frame_count(),
            self.prefix_ms(k) <= rem < self.prefix_ms(k + 1),
        ensures
            self.frame_at(rem) == k,
    {
        self.lemma_frame_from_unique(0, k, rem);
    }

    proof fn lemma_frame_from_unique(self, i: int, k: int, rem: nat)
        requires
            0 <= i <= k < self.frame_count(),
            self.prefix_ms(k) <= rem < self.prefix_ms(k + 1),
        ensures
            self.frame_from(i, rem) == k,
        decreases k - i,
    {
        if i == k {
        } else {
            assert(self.prefix_ms(i + 1) <= self.prefix_ms(k)) by {
                self.lemma_prefix_monotone(i + 1, k);
            }
            self.lemma_frame_from_unique(i + 1, k, rem);
        }
    }

    /// Wherever playback stands, the frame shown is a position within
    /// the frame list.
    pub proof fn lemma_position_frame_bounds(self, e: nat)
        requires
            self.valid(),
        ensures
            0 <= self.position_at(e).frame < self.frame_count(),
    {
        let total = self.total_ms();
        if total != 0 {
            let rem = e % total;
            assert(rem < total) by {
                vstd::arithmetic::div_mod::lemma_mod_bound(e as int, total as int);
            }
            self.lemma_frame_at_window(rem);
        }
    }

    /// Duration of playback step `i`, executable form.
    pub fn duration_at(&self, i: usize) -> (d: u32)
        requires
            self.valid(),
            i < self.frame_count(),
        ensures
            d == self.duration_of(i as int),
    {
        match &self.timing {
            Timing::Uniform(d) => *d,
            Timing::PerFrame(ds) => ds[i],
        }
    }

    /// Length of one full cycle in milliseconds, executable form.
    pub fn cycle_ms(&self) -> (t: u64)
        requires
            self.valid(),
        ensures
            t == self.total_ms(),
    {
        let n = self.frames.len();
        let mut acc: u64 = 0;
        let mut i: usize = 0;
        proof {
            self.lemma_total_fits();
        }
        while i < n
            invariant
                self.valid(),
                n == self.frame_count(),
                i <= n,
                acc == self.prefix_ms(i as int),
                self.total_ms() <= u64::MAX,
            decreases n - i,
        {
            proof {
                self.lemma_prefix_monotone(i + 1, n as int);
            }
            acc = acc + self.duration_at(i) as u64;
            i = i + 1;
        }
        acc
    }

    /// The playback step shown `rem` milliseconds into one cycle,
    /// executable form.
    pub fn frame_of_rem(&self, rem: u64) -> (f: usize)
        requires
            self.valid(),
            rem < self.total_ms(),
        ensures
            f == self.frame_at(rem as nat),
            0 <= f < self.frame_count(),
    {
        proof {
            self.lemma_frame_at_window(rem as nat);
            self.lemma_total_fits();
        }
        let n = self.frames.len();
        let mut acc: u64 = 0;
        let mut i: usize = 0;
        proof {
            self.lemma_prefix_monotone(1, n as int);
        }
        while rem >= acc + self.duration_at(i) as u64
            invariant
                self.valid(),
                n == self.frame_count(),
                i < n,
                acc == self.prefix_ms(i as int),
                acc <= rem < self.total_ms(),
                self.prefix_ms(i as int + 1) <= self.total_ms(),
                self.total_ms() <= u64::MAX,
            decreases n - i,
        {
            proof {
                assert(self.prefix_ms(i + 1) <= rem);
                assert(i + 1 < n) by {
                    if i + 1 == n {
                        assert(self.prefix_ms(n as int) <= rem);
                    }
                }
                self.lemma_prefix_monotone(i + 2, n as int);
            }
            acc = acc + self.duration_at(i) as u64;
            i = i + 1;
        }
        proof {
            self.lemma_frame_at_unique(i as int, rem as nat);
        }
        i
    }
}

} // verus!
