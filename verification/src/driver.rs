//! The per-tick driver: once per rendered frame the game drains its
//! queue of animation events into the registry, advances every active
//! clip by the tick's elapsed wall time, and reads back what to draw.
//!
//! Events enqueued during one tick are applied at the start of the
//! next tick's pass, before frame advancement; callers that need to
//! observe the effect of an event must wait one tick.

use vstd::prelude::*;

use crate::clip::Direction;
use crate::registry::Animations;
use crate::registry::EntityAnims;

verus! {

/// A one-shot request handed to the driver: start a clip on an
/// entity, or rewind one (releasing it if it is the active clip).
#[derive(Debug)]
pub enum AnimationEvent {
    Play { entity: u64, name: String },
    Reset { entity: u64, name: String },
}

/// What the driver writes onto an entity's renderable sprite state.
#[derive(Clone, Copy, Debug, PartialEq, Eq, Structural)]
pub struct RenderOutput {
    /// Sprite-sheet handle to draw from.
    pub sheet: u64,
    /// Absolute cell index in the sheet: directional row times row
    /// width, plus the current frame's column.
    pub index: u64,
    /// Mirror horizontally: the clip keeps a single physical row for
    /// left and right, and the entity faces left.
    pub flip_x: bool,
}

/// The registry transition a single event causes.
pub open spec fn applied_event(pre: Animations, ev: AnimationEvent, post: Animations) -> bool {
    match ev {
        AnimationEvent::Play { entity, name } => Animations::activate_rel(pre, post, entity, name@),
        AnimationEvent::Reset { entity, name } => Animations::reset_rel(pre, post, entity, name@),
    }
}

/// The registry transition a queue of events causes, applied in
/// order.
pub open spec fn events_applied(pre: Animations, events: Seq<AnimationEvent>, post: Animations) -> bool
    decreases events.len(),
{
    if events.len() == 0 {
        post == pre
    } else {
        exists|mid: Animations|
            #[trigger] applied_event(pre, events[0], mid) && events_applied(
                mid,
                events.drop_first(),
                post,
            )
    }
}

/// Appending one event to an applied queue extends the transition.
proof fn lemma_events_applied_push(
    pre: Animations,
    mid: Animations,
    events: Seq<AnimationEvent>,
    ev: AnimationEvent,
    post: Animations,
)
    requires
        events_applied(pre, events, mid),
        applied_event(mid, ev, post),
    ensures
        events_applied(pre, events.push(ev), post),
    decreases events.len(),
{
    let whole = events.push(ev);
    if events.len() == 0 {
        assert(mid == pre);
        assert(whole[0] == ev);
        assert(whole.drop_first() =~= Seq::<AnimationEvent>::empty());
        assert(events_applied(post, whole.drop_first(), post));
        assert(applied_event(pre, whole[0], post));
    } else {
        assert(exists|m: Animations|
            #[trigger] applied_event(pre, events[0], m) && events_applied(
                m,
                events.drop_first(),
                mid,
            ));
        let step = choose|m: Animations|
            #[trigger] applied_event(pre, events[0], m) && events_applied(
                m,
                events.drop_first(),
                mid,
            );
        lemma_events_applied_push(step, mid, events.drop_first(), ev, post);
        assert(whole.drop_first() =~= events.drop_first().push(ev));
        assert(whole[0] == events[0]);
        assert(events_applied(step, whole.drop_first(), post));
        assert(applied_event(pre, whole[0], step));
    }
}

impl Animations {
    /// How a whole registry changes when the driver advances time:
    /// entity by entity, as `EntityAnims::advanced_by` says.
    pub open spec fn advanced_rel(pre: Animations, delta_ms: u64, post: Animations) -> bool {
        &&& post.entries@.len() == pre.entries@.len()
        &&& forall|i: int|
            0 <= i < pre.entries@.len() ==> EntityAnims::advanced_by(
                pre.entries@[i],
                delta_ms,
                #[trigger] post.entries@[i],
            )
    }

    /// One driver pass: applies the tick's queued events in order,
    /// then advances every active clip by `delta_ms` milliseconds.
    pub fn tick(&mut self, events: &Vec<AnimationEvent>, delta_ms: u64)
        requires
            old(self).wf(),
        ensures
            final(self).wf(),
            exists|mid: Animations|
                #[trigger] events_applied(*old(self), events@, mid) && Animations::advanced_rel(
                    mid,
                    delta_ms,
                    *final(self),
                ),
    {
        let n = events.len();
        let mut i: usize = 0;
        proof {
            assert(events@.take(0) =~= Seq::<AnimationEvent>::empty());
        }
        while i < n
            invariant
                n == events@.len(),
                i <= n,
                self.wf(),
                events_applied(*old(self), events@.take(i as int), *self),
            decreases n - i,
        {
            let ghost mid0 = *self;
            match &events[i] {
                AnimationEvent::Play { entity, name } => {
                    self.activate(*entity, name);
                },
                AnimationEvent::Reset { entity, name } => {
                    self.reset(*entity, name);
                },
            }
            proof {
                lemma_events_applied_push(
                    *old(self),
                    mid0,
                    events@.take(i as int),
                    events@[i as int],
                    *self,
                );
                assert(events@.take(i as int).push(events@[i as int]) =~= events@.take(
                    i as int + 1,
                ));
            }
            i = i + 1;
        }
        proof {
            assert(events@.take(n as int) =~= events@);
        }
        let ghost mid = *self;
        self.advance_all(delta_ms);
        proof {
            assert(events_applied(*old(self), events@, mid));
        }
    }

    /// What entity `e`'s sprite should show this tick given its
    /// facing direction: `None` when no clip is active (the entity
    /// rests on its idle sprite), otherwise the sheet, the absolute
    /// cell index, and whether to mirror horizontally.
    pub fn render(&self, e: u64, facing: Direction) -> (r: Option<RenderOutput>)
        requires
            self.wf(),
        ensures
            r is Some <==> self.has_entity(e) && self.entity_view(e).active is Some,
            r matches Some(out) ==> ({
                let ea = self.entity_view(e);
                &&& ea.active matches Some(a) && ({
                    let ce = ea.clips@[ea.clip_index(a.name@)];
                    &&& out.sheet == ce.def.sheet
                    &&& out.index == ce.def.rows.spec_row_for(facing) * ce.def.sheet_cols
                        + ce.def.frames@[ce.state.frame_pos as int]
                    &&& out.flip_x == (facing == Direction::Left && ce.def.rows.left
                        == ce.def.rows.right)
                })
            }),
    {
        let i = match self.find_entity(e) {
            None => { return None; },
            Some(i) => i,
        };
        let name = match &self.entries[i].active {
            None => { return None; },
            Some(a) => a.name.clone(),
        };
        let j = self.entries[i].find_clip(&name).unwrap();
        let ce = &self.entries[i].clips[j];
        proof {
            ce.def.lemma_position_frame_bounds(ce.state.elapsed_ms as nat);
        }
        let col = ce.def.frames[ce.state.frame_pos];
        let row = ce.def.rows.row_for(facing);
        proof {
            assert((row as int) * (ce.def.sheet_cols as int) + (col as int) <= 0xffff_ffff_ffff_ffff)
                by (nonlinear_arith)
                requires
                    row <= 0xffff_ffffu32,
                    ce.def.sheet_cols <= 0xffff_ffffu32,
                    col <= 0xffff_ffffu32,
            ;
        }
        let index = (row as u64) * (ce.def.sheet_cols as u64) + (col as u64);
        let flip_x = facing == Direction::Left && ce.def.rows.left == ce.def.rows.right;
        Some(RenderOutput { sheet: ce.def.sheet, index, flip_x })
    }
}

} // verus!
