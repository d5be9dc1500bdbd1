//! Per-clip playback state: an elapsed-time accumulator together with
//! the frame cursor and finished flag derived from it, and the laws of
//! frame advancement.

use vstd::prelude::*;

use crate::clip::ClipDef;
use crate::clip::Timing;

verus! {

/// Why a clip definition was rejected at registration.
#[derive(Clone, Copy, Debug, PartialEq, Eq, Structural)]
pub enum ClipError {
    /// The frame list is empty.
    NoFrames,
    /// The frame list is too long for one cycle to be measured in a
    /// 64-bit millisecond count.
    TooManyFrames,
    /// A per-frame timing list does not match the frame list in
    /// length.
    TimingMismatch,
}

impl ClipDef {
    /// Checks the well-formedness that `register` demands, naming the
    /// first defect found (frame list before timing list).
    pub fn validate(&self) -> (r: Result<(), ClipError>)
        ensures
            r is Ok <==> self.valid(),
            r matches Err(e) ==> match e {
                ClipError::NoFrames => self.frames@.len() == 0,
                ClipError::TooManyFrames => self.frames@.len() > u32::MAX,
                ClipError::TimingMismatch => {
                    &&& 1 <= self.frames@.len() <= u32::MAX
                    &&& self.timing matches Timing::PerFrame(ds) && ds@.len() != self.frames@.len()
                },
            },
    {
        if self.frames.len() == 0 {
            return Err(ClipError::NoFrames);
        }
        if self.frames.len() > u32::MAX as usize {
            return Err(ClipError::TooManyFrames);
        }
        match &self.timing {
            Timing::Uniform(_) => Ok(()),
            Timing::PerFrame(ds) => {
                if ds.len() == self.frames.len() {
                    Ok(())
                } else {
                    Err(ClipError::TimingMismatch)
                }
            },
        }
    }
}

/// Playback cursor for one clip on one entity: how long the clip has
/// been playing, and the frame position and finished flag that this
/// elapsed time determines.
#[derive(Clone, Copy, Debug)]
pub struct ClipState {
    /// Milliseconds since the clip was (re)activated. Saturates at
    /// `u64::MAX` (more than 500 million years).
    pub elapsed_ms: u64,
    /// Current position within the clip's frame list.
    pub frame_pos: usize,
    /// Whether a non-looping clip has consumed all of its repeats.
    pub finished: bool,
}

/// The unique playback state a clip is in after playing for `e`
/// milliseconds.
pub open spec fn state_at(def: ClipDef, e: u64) -> ClipState {
    let p = def.position_at(e as nat);
    ClipState { elapsed_ms: e, frame_pos: p.frame as usize, finished: p.finished }
}

impl ClipState {
    /// The cursor matches what its own elapsed time dictates for
    /// `def`.
    pub open spec fn wf_for(self, def: ClipDef) -> bool {
        self == state_at(def, self.elapsed_ms)
    }

    /// The state `advance` moves `self` to: elapsed time grows by
    /// `delta_ms` (saturating), everything else follows from it.
    pub open spec fn advanced(self, def: ClipDef, delta_ms: u64) -> ClipState {
        let e = if self.elapsed_ms + delta_ms <= u64::MAX {
            (self.elapsed_ms + delta_ms) as u64
        } else {
            u64::MAX
        };
        state_at(def, e)
    }

    /// The state of a clip that has just been (re)activated.
    pub fn fresh(def: &ClipDef) -> (st: ClipState)
        requires
            def.valid(),
        ensures
            st == state_at(*def, 0),
            st.wf_for(*def),
    {
        at_elapsed(def, 0)
    }

    /// Moves the cursor `delta_ms` milliseconds forward.
    pub fn advance(&mut self, def: &ClipDef, delta_ms: u64)
        requires
            def.valid(),
        ensures
            *final(self) == old(self).advanced(*def, delta_ms),
            final(self).wf_for(*def),
    {
        let e = if self.elapsed_ms <= u64::MAX - delta_ms {
            self.elapsed_ms + delta_ms
        } else {
            u64::MAX
        };
        *self = at_elapsed(def, e);
    }

    /// How many of a finite, non-looping clip's repeats are still to
    /// be played (0 for looping or infinitely repeating clips).
    pub open spec fn spec_repeats_left(self, def: ClipDef) -> u32 {
        if def.looping || def.repeat == 0 {
            0u32
        } else {
            let done = def.position_at(self.elapsed_ms as nat).cycles_done;
            if done >= def.repeat {
                0u32
            } else {
                (def.repeat - done) as u32
            }
        }
    }

    /// Executable form of `spec_repeats_left`.
    pub fn repeats_left(&self, def: &ClipDef) -> (r: u32)
        requires
            def.valid(),
            self.wf_for(*def),
        ensures
            r == self.spec_repeats_left(*def),
    {
        if def.looping || def.repeat == 0 {
            return 0;
        }
        let total = def.cycle_ms();
        if total == 0 {
            return 0;
        }
        let cycles = self.elapsed_ms / total;
        if cycles >= def.repeat as u64 {
            0
        } else {
            def.repeat - cycles as u32
        }
    }
}

/// The playback state `e` milliseconds into a clip, computed from
/// scratch.
pub fn at_elapsed(def: &ClipDef, e: u64) -> (st: ClipState)
    requires
        def.valid(),
    ensures
        st == state_at(*def, e),
{
    let n = def.frames.len();
    let total = def.cycle_ms();
    if total == 0 {
        if def.looping || def.repeat == 0 {
            ClipState { elapsed_ms: e, frame_pos: n - 1, finished: false }
        } else {
            ClipState { elapsed_ms: e, frame_pos: n - 1, finished: true }
        }
    } else {
        let cycles = e / total;
        let rem = e % total;
        if !def.looping && def.repeat != 0 && cycles >= def.repeat as u64 {
            ClipState { elapsed_ms: e, frame_pos: n - 1, finished: true }
        } else {
            let f = def.frame_of_rem(rem);
            ClipState { elapsed_ms: e, frame_pos: f, finished: false }
        }
    }
}

/// Law: advancing a non-looping clip with uniform frame duration
/// `d > 0` by exactly `k` whole frame durations, `k` within the frame
/// list, shows frame `k` and is not finished.
pub proof fn lemma_uniform_frame_steps(def: ClipDef, d: u32, k: nat)
    requires
        def.valid(),
        def.timing == Timing::Uniform(d),
        d > 0,
        !def.looping,
        k < def.frame_count(),
    ensures
        def.position_at(k * (d as nat)).finished == false,
        def.position_at(k * (d as nat)).frame == k,
{
    let n = def.frame_count();
    let total = def.total_ms();
    lemma_uniform_prefix(def, d, n as int);
    lemma_uniform_prefix(def, d, k as int);
    lemma_uniform_prefix(def, d, k as int + 1);
    assert(total == n * d);
    let e: nat = k * (d as nat);
    assert(e < total) by {
        vstd::arithmetic::mul::lemma_mul_strict_inequality(k as int, n as int, d as int);
    }
    assert(e / total == 0) by {
        vstd::arithmetic::div_mod::lemma_basic_div(e as int, total as int);
    }
    assert(e % total == e) by {
        vstd::arithmetic::div_mod::lemma_small_mod(e, total);
    }
    assert(def.prefix_ms(k as int) == e);
    assert(def.prefix_ms(k as int + 1) == e + d) by {
        vstd::arithmetic::mul::lemma_mul_is_distributive_add_other_way(d as int, k as int, 1);
    }
    def.lemma_frame_at_unique(k as int, e);
}

/// Prefix sums of a uniform clip are whole multiples of the frame
/// duration.
proof fn lemma_uniform_prefix(def: ClipDef, d: u32, i: int)
    requires
        def.timing == Timing::Uniform(d),
        0 <= i,
    ensures
        def.prefix_ms(i) == i * d,
    decreases i,
{
    if i > 0 {
        lemma_uniform_prefix(def, d, i - 1);
        assert(def.prefix_ms(i) == def.prefix_ms(i - 1) + d);
        assert((i - 1) * d + d == i * d) by (nonlinear_arith);
    }
}

/// Law: a non-looping clip that plays exactly once is finished
/// precisely when one full cycle has elapsed.
pub proof fn lemma_single_play_finishes(def: ClipDef, e: nat)
    requires
        def.valid(),
        !def.looping,
        def.repeat == 1,
    ensures
        def.position_at(e).finished <==> e >= def.total_ms(),
{
    let total = def.total_ms();
    if total > 0 {
        if e >= total {
            assert(e / total >= 1) by {
                vstd::arithmetic::div_mod::lemma_div_by_self(total as int);
                vstd::arithmetic::div_mod::lemma_div_is_ordered(total as int, e as int, total as int);
            }
        } else {
            assert(e / total == 0) by {
                vstd::arithmetic::div_mod::lemma_basic_div(e as int, total as int);
            }
        }
    }
}

/// Law: a looping clip never finishes, whatever time has elapsed.
pub proof fn lemma_looping_never_finishes(def: ClipDef, e: nat)
    requires
        def.looping,
    ensures
        !def.position_at(e).finished,
{
}

/// Law: a looping clip's frame is periodic with period `total_ms()`.
pub proof fn lemma_looping_period(def: ClipDef, e: nat)
    requires
        def.valid(),
        def.looping,
        def.total_ms() > 0,
    ensures
        def.position_at(e + def.total_ms()).frame == def.position_at(e).frame,
{
    let total = def.total_ms() as int;
    assert((e as int + total) % total == (e as int) % total) by {
        vstd::arithmetic::div_mod::lemma_mod_multiples_vanish(1, e as int, total);
    }
}

} // verus!
