//! The animation registry: for every entity, the clips registered on
//! it (each with its own playback state) and which clip, if any, is
//! presently driving the entity's sprite.
//!
//! At most one clip is active per entity. A locked active clip cannot
//! be preempted until it finishes or is explicitly reset. Activating
//! anything on an unregistered entity, or an unregistered clip name,
//! is a harmless no-op: animation requests may race entity setup and
//! must not disturb the game.

use vstd::prelude::*;

use crate::clip::ClipDef;
use crate::playback::at_elapsed;
use crate::playback::state_at;
use crate::playback::ClipError;
use crate::playback::ClipState;

verus! {

/// One clip registered on one entity, with its playback cursor.
#[derive(Debug)]
pub struct ClipEntry {
    pub def: ClipDef,
    pub state: ClipState,
}

/// The clip presently driving an entity's sprite.
#[derive(Debug)]
pub struct ActiveClip {
    /// Name of the registered clip.
    pub name: String,
    /// Mirror of the clip definition's locking flag.
    pub locking: bool,
}

/// All clips registered on one entity.
#[derive(Debug)]
pub struct EntityAnims {
    pub entity: u64,
    pub clips: Vec<ClipEntry>,
    pub active: Option<ActiveClip>,
}

/// The registry itself: one record per entity that has at least one
/// registered clip.
#[derive(Debug)]
pub struct Animations {
    pub entries: Vec<EntityAnims>,
}

impl ClipEntry {
    /// The definition is acceptable and the cursor agrees with its own
    /// elapsed time.
    pub open spec fn wf(self) -> bool {
        &&& self.def.valid()
        &&& self.state.wf_for(self.def)
    }

    /// Moves this clip's cursor `delta_ms` milliseconds forward.
    pub fn advance(&mut self, delta_ms: u64)
        requires
            old(self).wf(),
        ensures
            final(self).def == old(self).def,
            final(self).state == old(self).state.advanced(old(self).def, delta_ms),
            final(self).wf(),
    {
        let e = if self.state.elapsed_ms <= u64::MAX - delta_ms {
            self.state.elapsed_ms + delta_ms
        } else {
            u64::MAX
        };
        self.state = at_elapsed(&self.def, e);
    }

    /// Rewinds this clip to the state of one just activated.
    pub fn rewind(&mut self)
        requires
            old(self).wf(),
        ensures
            final(self).def == old(self).def,
            final(self).state == state_at(old(self).def, 0),
            final(self).wf(),
    {
        self.state = at_elapsed(&self.def, 0);
    }
}

impl EntityAnims {
    /// No two clips of one entity share a name.
    pub open spec fn clip_names_distinct(self) -> bool {
        forall|j: int, k: int|
            0 <= j < k < self.clips@.len() ==> self.clips@[j].def.name@ != self.clips@[k].def.name@
    }

    /// Some clip named `name` is registered on this entity.
    pub open spec fn has_clip(self, name: Seq<char>) -> bool {
        exists|j: int| 0 <= j < self.clips@.len() && self.clips@[j].def.name@ == name
    }

    /// Index of the clip named `name` (meaningful when `has_clip`).
    pub open spec fn clip_index(self, name: Seq<char>) -> int {
        choose|j: int| 0 <= j < self.clips@.len() && self.clips@[j].def.name@ == name
    }

    /// Well-formed record: distinct clip names, every clip entry
    /// well-formed, and an active clip (if any) registered here with
    /// a faithful lock flag.
    pub open spec fn wf(self) -> bool {
        &&& self.clip_names_distinct()
        &&& forall|j: int| 0 <= j < self.clips@.len() ==> (#[trigger] self.clips@[j]).wf()
        &&& match self.active {
            Some(a) => {
                &&& self.has_clip(a.name@)
                &&& a.locking == self.clips@[self.clip_index(a.name@)].def.locking
            },
            None => true,
        }
    }

    /// The active clip is locked and still playing, so an activation
    /// request must be dropped.
    pub open spec fn activation_blocked(self) -> bool {
        match self.active {
            Some(a) => a.locking && !self.clips@[self.clip_index(a.name@)].state.finished,
            None => false,
        }
    }

    /// With distinct names, `clip_index` inverts lookup by name.
    pub proof fn lemma_clip_index_of(self, j: int)
        requires
            self.clip_names_distinct(),
            0 <= j < self.clips@.len(),
        ensures
            self.clip_index(self.clips@[j].def.name@) == j,
    {
        let name = self.clips@[j].def.name@;
        assert(self.has_clip(name));
        let k = self.clip_index(name);
        if k < j {
            assert(self.clips@[k].def.name@ != self.clips@[j].def.name@);
        } else if j < k {
            assert(self.clips@[j].def.name@ != self.clips@[k].def.name@);
        }
    }

    /// How one entity record changes when the driver advances time by
    /// `delta_ms`: an idle record is untouched; otherwise the active
    /// clip's cursor moves forward, and the active slot is cleared if
    /// that left the clip finished.
    pub open spec fn advanced_by(pre: EntityAnims, delta_ms: u64, post: EntityAnims) -> bool {
        &&& post.entity == pre.entity
        &&& match pre.active {
            None => post == pre,
            Some(a) => {
                let j = pre.clip_index(a.name@);
                let st2 = pre.clips@[j].state.advanced(pre.clips@[j].def, delta_ms);
                &&& post.clips@ == pre.clips@.update(
                    j,
                    ClipEntry { def: pre.clips@[j].def, state: st2 },
                )
                &&& if st2.finished {
                    post.active is None
                } else {
                    post.active == pre.active
                }
            },
        }
    }

    /// Pushing a clip under a name not yet present keeps the record
    /// well-formed.
    pub proof fn lemma_wf_push(pre: EntityAnims, ce: ClipEntry, post: EntityAnims)
        requires
            pre.wf(),
            ce.wf(),
            forall|k: int|
                0 <= k < pre.clips@.len() ==> (#[trigger] pre.clips@[k]).def.name@ != ce.def.name@,
            post.entity == pre.entity,
            post.active == pre.active,
            post.clips@ == pre.clips@.push(ce),
        ensures
            post.wf(),
    {
        let m0 = pre.clips@.len() as int;
        assert forall|j: int, k: int|
            0 <= j < k < post.clips@.len() implies post.clips@[j].def.name@ != post.clips@[k].def.name@ by {
            if k < m0 {
                assert(pre.clips@[j].def.name@ != pre.clips@[k].def.name@);
            } else {
                assert(post.clips@[k] == ce);
                assert(post.clips@[j] == pre.clips@[j]);
            }
        }
        assert forall|j: int| 0 <= j < post.clips@.len() implies (#[trigger] post.clips@[j]).wf() by {
            if j < m0 {
                assert(post.clips@[j] == pre.clips@[j]);
            } else {
                assert(post.clips@[j] == ce);
            }
        }
        match pre.active {
            Some(a) => {
                assert(pre.has_clip(a.name@));
                let j0 = pre.clip_index(a.name@);
                assert(0 <= j0 < m0 && pre.clips@[j0].def.name@ == a.name@);
                assert(post.clips@[j0] == pre.clips@[j0]);
                post.lemma_clip_index_of(j0);
            },
            None => {},
        }
    }

    /// Finds the position of the clip named `name`, if one is
    /// registered on this entity.
    pub fn find_clip(&self, name: &String) -> (r: Option<usize>)
        requires
            self.clip_names_distinct(),
        ensures
            match r {
                Some(j) => {
                    &&& j < self.clips@.len()
                    &&& self.clips@[j as int].def.name@ == name@
                    &&& self.has_clip(name@)
                    &&& self.clip_index(name@) == j
                },
                None => !self.has_clip(name@),
            },
    {
        let n = self.clips.len();
        let mut j: usize = 0;
        while j < n
            invariant
                n == self.clips@.len(),
                j <= n,
                self.clip_names_distinct(),
                forall|k: int| 0 <= k < j ==> self.clips@[k].def.name@ != name@,
            decreases n - j,
        {
            if self.clips[j].def.name == *name {
                proof {
                    self.lemma_clip_index_of(j as int);
                }
                return Some(j);
            }
            j = j + 1;
        }
        None
    }

    /// Advances the active clip of this record by `delta_ms`,
    /// clearing the active slot if the clip thereby finishes. An idle
    /// record is left untouched.
    pub fn advance_active(&mut self, delta_ms: u64)
        requires
            old(self).wf(),
        ensures
            final(self).wf(),
            EntityAnims::advanced_by(*old(self), delta_ms, *final(self)),
    {
        let act_name: Option<String> = match &self.active {
            Some(a) => Some(a.name.clone()),
            None => None,
        };
        match act_name {
            None => {},
            Some(name) => {
                let j = self.find_clip(&name).unwrap();
                self.clips[j].advance(delta_ms);
                proof {
                    assert(forall|k: int|
                        0 <= k < self.clips@.len() ==> (#[trigger] self.clips@[k]).def
                            == old(self).clips@[k].def);
                    self.lemma_clip_index_of(j as int);
                }
                if self.clips[j].state.finished {
                    self.active = None;
                }
            },
        }
    }
}

impl Animations {
    /// No two records describe the same entity.
    pub open spec fn entities_distinct(self) -> bool {
        forall|i: int, k: int|
            0 <= i < k < self.entries@.len() ==> self.entries@[i].entity != self.entries@[k].entity
    }

    /// The entity has at least one registered clip.
    pub open spec fn has_entity(self, e: u64) -> bool {
        exists|i: int| 0 <= i < self.entries@.len() && self.entries@[i].entity == e
    }

    /// Index of the record for entity `e` (meaningful when
    /// `has_entity`).
    pub open spec fn entity_index(self, e: u64) -> int {
        choose|i: int| 0 <= i < self.entries@.len() && self.entries@[i].entity == e
    }

    /// The record for entity `e` (meaningful when `has_entity`).
    pub open spec fn entity_view(self, e: u64) -> EntityAnims {
        self.entries@[self.entity_index(e)]
    }

    /// Well-formed registry: distinct entities, each record
    /// well-formed.
    pub open spec fn wf(self) -> bool {
        &&& self.entities_distinct()
        &&& forall|i: int| 0 <= i < self.entries@.len() ==> (#[trigger] self.entries@[i]).wf()
    }

    /// With distinct entities, `entity_index` inverts lookup.
    pub proof fn lemma_entity_index_of(self, i: int)
        requires
            self.entities_distinct(),
            0 <= i < self.entries@.len(),
        ensures
            self.entity_index(self.entries@[i].entity) == i,
    {
        let e = self.entries@[i].entity;
        assert(self.has_entity(e));
        let k = self.entity_index(e);
        if k < i {
            assert(self.entries@[k].entity != self.entries@[i].entity);
        } else if i < k {
            assert(self.entries@[i].entity != self.entries@[k].entity);
        }
    }

    /// An empty registry.
    pub fn new() -> (r: Animations)
        ensures
            r.wf(),
            r.entries@.len() == 0,
    {
        Animations { entries: Vec::new() }
    }

    /// Finds the position of the record for entity `e`, if any.
    pub fn find_entity(&self, e: u64) -> (r: Option<usize>)
        requires
            self.entities_distinct(),
        ensures
            match r {
                Some(i) => {
                    &&& i < self.entries@.len()
                    &&& self.entries@[i as int].entity == e
                    &&& self.has_entity(e)
                    &&& self.entity_index(e) == i
                },
                None => !self.has_entity(e),
            },
    {
        let n = self.entries.len();
        let mut i: usize = 0;
        while i < n
            invariant
                n == self.entries@.len(),
                i <= n,
                self.entities_distinct(),
                forall|k: int| 0 <= k < i ==> self.entries@[k].entity != e,
            decreases n - i,
        {
            if self.entries[i].entity == e {
                proof {
                    self.lemma_entity_index_of(i as int);
                }
                return Some(i);
            }
            i = i + 1;
        }
        None
    }

    /// Whether `e` has at least one registered clip. Gameplay code
    /// reads this to avoid acting before setup has completed.
    pub fn is_registered(&self, e: u64) -> (r: bool)
        requires
            self.wf(),
        ensures
            r == self.has_entity(e),
    {
        match self.find_entity(e) {
            Some(_) => true,
            None => false,
        }
    }

    /// Whether `e` currently has a clip playing, or `None` if `e` has
    /// no registered clips at all.
    pub fn is_active(&self, e: u64) -> (r: Option<bool>)
        requires
            self.wf(),
        ensures
            r is Some <==> self.has_entity(e),
            self.has_entity(e) ==> r == Some(self.entity_view(e).active is Some),
    {
        match self.find_entity(e) {
            Some(i) => {
                match &self.entries[i].active {
                    Some(_) => Some(true),
                    None => Some(false),
                }
            },
            None => None,
        }
    }

    /// Registers `def` on entity `e` with a fresh playback state.
    ///
    /// A malformed definition is rejected; registering a name already
    /// present on the entity is a silent no-op, so repeated setup
    /// passes are harmless.
    pub fn register(&mut self, e: u64, def: ClipDef) -> (r: Result<(), ClipError>)
        requires
            old(self).wf(),
        ensures
            final(self).wf(),
            r is Ok <==> def.valid(),
            !def.valid() ==> *final(self) == *old(self),
            def.valid() && old(self).has_entity(e) && old(self).entity_view(e).has_clip(def.name@)
                ==> *final(self) == *old(self),
            def.valid() && !old(self).has_entity(e) ==> {
                &&& final(self).entries@.len() == old(self).entries@.len() + 1
                &&& forall|i: int|
                    0 <= i < old(self).entries@.len() ==> final(self).entries@[i] == old(self).entries@[i]
                &&& final(self).entries@.last().entity == e
                &&& final(self).entries@.last().active is None
                &&& final(self).entries@.last().clips@.len() == 1
                &&& final(self).entries@.last().clips@[0].def == def
                &&& final(self).entries@.last().clips@[0].state == state_at(def, 0)
            },
            def.valid() && old(self).has_entity(e) && !old(self).entity_view(e).has_clip(def.name@)
                ==> {
                let i = old(self).entity_index(e);
                &&& final(self).entries@.len() == old(self).entries@.len()
                &&& forall|k: int|
                    0 <= k < final(self).entries@.len() && k != i ==> final(self).entries@[k] == old(
                        self,
                    ).entries@[k]
                &&& final(self).entries@[i].entity == e
                &&& final(self).entries@[i].active == old(self).entries@[i].active
                &&& final(self).entries@[i].clips@ == old(self).entries@[i].clips@.push(
                    ClipEntry { def: def, state: state_at(def, 0) },
                )
            },
    {
        if let Err(err) = def.validate() {
            return Err(err);
        }
        let st = ClipState::fresh(&def);
        match self.find_entity(e) {
            None => {
                let mut clips: Vec<ClipEntry> = Vec::new();
                clips.push(ClipEntry { def, state: st });
                self.entries.push(EntityAnims { entity: e, clips, active: None });
                proof {
                    let n0 = old(self).entries@.len() as int;
                    assert forall|i: int|
                        0 <= i < self.entries@.len() implies (#[trigger] self.entries@[i]).wf() by {
                        if i < n0 {
                            assert(self.entries@[i] == old(self).entries@[i]);
                        } else {
                            assert(self.entries@[i].clips@.len() == 1);
                        }
                    }
                }
                Ok(())
            },
            Some(i) => {
                match self.entries[i].find_clip(&def.name) {
                    Some(_) => Ok(()),
                    None => {
                        proof {
                            assert forall|k: int|
                                0 <= k < old(self).entries@[i as int].clips@.len() implies old(
                                self,
                            ).entries@[i as int].clips@[k].def.name@ != def.name@ by {
                                if old(self).entries@[i as int].clips@[k].def.name@ == def.name@ {
                                    assert(old(self).entries@[i as int].has_clip(def.name@));
                                }
                            }
                        }
                        self.entries[i].clips.push(ClipEntry { def, state: st });
                        proof {
                            let pre = old(self).entries@[i as int];
                            let post = self.entries@[i as int];
                            assert forall|k: int|
                                0 <= k < self.entries@.len() implies (
                            #[trigger] self.entries@[k]).wf() by {
                                if k != i {
                                    assert(self.entries@[k] == old(self).entries@[k]);
                                } else {
                                    EntityAnims::lemma_wf_push(
                                        pre,
                                        ClipEntry { def: def, state: st },
                                        post,
                                    );
                                }
                            }
                        }
                        Ok(())
                    },
                }
            },
        }
    }

    /// How the registry responds to an activation request for clip
    /// `name` on entity `e`: dropped without a trace if the entity or
    /// the name is unregistered or the active clip is locked and still
    /// playing; otherwise the named clip is rewound and becomes the
    /// active clip, and nothing else changes.
    pub open spec fn activate_rel(pre: Animations, post: Animations, e: u64, name: Seq<char>) -> bool {
        &&& !pre.has_entity(e) ==> post == pre
        &&& pre.has_entity(e) && !pre.entity_view(e).has_clip(name) ==> post == pre
        &&& pre.has_entity(e) && pre.entity_view(e).has_clip(name)
            && pre.entity_view(e).activation_blocked() ==> post == pre
        &&& pre.has_entity(e) && pre.entity_view(e).has_clip(name)
            && !pre.entity_view(e).activation_blocked() ==> {
            let i = pre.entity_index(e);
            let j = pre.entries@[i].clip_index(name);
            &&& post.entries@.len() == pre.entries@.len()
            &&& forall|k: int|
                0 <= k < post.entries@.len() && k != i ==> post.entries@[k] == pre.entries@[k]
            &&& post.entries@[i].entity == e
            &&& post.entries@[i].clips@ == pre.entries@[i].clips@.update(
                j,
                ClipEntry {
                    def: pre.entries@[i].clips@[j].def,
                    state: state_at(pre.entries@[i].clips@[j].def, 0),
                },
            )
            &&& post.entries@[i].active matches Some(a) && a.name@ == name && a.locking
                == pre.entries@[i].clips@[j].def.locking
        }
    }

    /// How the registry responds to a reset request for clip `name`
    /// on entity `e`: dropped if the entity or the name is
    /// unregistered; otherwise the named clip is rewound, and it stops
    /// driving the sprite if it was the active clip.
    pub open spec fn reset_rel(pre: Animations, post: Animations, e: u64, name: Seq<char>) -> bool {
        &&& !pre.has_entity(e) ==> post == pre
        &&& pre.has_entity(e) && !pre.entity_view(e).has_clip(name) ==> post == pre
        &&& pre.has_entity(e) && pre.entity_view(e).has_clip(name) ==> {
            let i = pre.entity_index(e);
            let j = pre.entries@[i].clip_index(name);
            &&& post.entries@.len() == pre.entries@.len()
            &&& forall|k: int|
                0 <= k < post.entries@.len() && k != i ==> post.entries@[k] == pre.entries@[k]
            &&& post.entries@[i].entity == e
            &&& post.entries@[i].clips@ == pre.entries@[i].clips@.update(
                j,
                ClipEntry {
                    def: pre.entries@[i].clips@[j].def,
                    state: state_at(pre.entries@[i].clips@[j].def, 0),
                },
            )
            &&& match pre.entries@[i].active {
                Some(a) => if a.name@ == name {
                    post.entries@[i].active is None
                } else {
                    post.entries@[i].active == pre.entries@[i].active
                },
                None => post.entries@[i].active is None,
            }
        }
    }

    /// Makes the clip named `name` the active clip of entity `e`,
    /// rewound to its start.
    ///
    /// The request is dropped — the registry is left exactly as it
    /// was — when `e` has no registered clips, when no clip of that
    /// name is registered on `e`, or when the currently active clip is
    /// locked and still playing.
    pub fn activate(&mut self, e: u64, name: &String)
        requires
            old(self).wf(),
        ensures
            final(self).wf(),
            Animations::activate_rel(*old(self), *final(self), e, name@),
    {
        let i = match self.find_entity(e) {
            None => { return ; },
            Some(i) => i,
        };
        let j = match self.entries[i].find_clip(name) {
            None => { return ; },
            Some(j) => j,
        };
        let blocked = match &self.entries[i].active {
            Some(a) => {
                if a.locking {
                    let aj = self.entries[i].find_clip(&a.name).unwrap();
                    !self.entries[i].clips[aj].state.finished
                } else {
                    false
                }
            },
            None => false,
        };
        if blocked {
            return ;
        }
        self.entries[i].clips[j].rewind();
        let locking = self.entries[i].clips[j].def.locking;
        self.entries[i].active = Some(ActiveClip { name: name.clone(), locking });
        proof {
            let post = self.entries@[i as int];
            let pre = old(self).entries@[i as int];
            assert(forall|k: int|
                0 <= k < post.clips@.len() ==> (#[trigger] post.clips@[k]).def == pre.clips@[k].def);
            post.lemma_clip_index_of(j as int);
        }
    }

    /// Rewinds the clip named `name` on entity `e` to its start; if it
    /// was the active clip, the entity reverts to no animation. A
    /// reset releases even a locked clip. Dropped if the entity or the
    /// name is unregistered.
    pub fn reset(&mut self, e: u64, name: &String)
        requires
            old(self).wf(),
        ensures
            final(self).wf(),
            Animations::reset_rel(*old(self), *final(self), e, name@),
    {
        let i = match self.find_entity(e) {
            None => { return ; },
            Some(i) => i,
        };
        let j = match self.entries[i].find_clip(name) {
            None => { return ; },
            Some(j) => j,
        };
        self.entries[i].clips[j].rewind();
        let clear = match &self.entries[i].active {
            Some(a) => a.name == *name,
            None => false,
        };
        if clear {
            self.entries[i].active = None;
        }
        proof {
            let post = self.entries@[i as int];
            let pre = old(self).entries@[i as int];
            assert(forall|k: int|
                0 <= k < post.clips@.len() ==> (#[trigger] post.clips@[k]).def == pre.clips@[k].def);
            match post.active {
                Some(a) => {
                    assert(pre.has_clip(a.name@));
                    let j0 = pre.clip_index(a.name@);
                    assert(pre.clips@[j0].def.name@ == a.name@);
                    post.lemma_clip_index_of(j0);
                },
                None => {},
            }
        }
    }

    /// Advances every entity's active clip by `delta_ms`
    /// milliseconds, clearing the active slot of each clip that
    /// thereby finishes. Idle and unregistered entities are untouched.
    pub fn advance_all(&mut self, delta_ms: u64)
        requires
            old(self).wf(),
        ensures
            final(self).wf(),
            final(self).entries@.len() == old(self).entries@.len(),
            forall|i: int|
                0 <= i < old(self).entries@.len() ==> EntityAnims::advanced_by(
                    old(self).entries@[i],
                    delta_ms,
                    #[trigger] final(self).entries@[i],
                ),
    {
        let n = self.entries.len();
        let mut i: usize = 0;
        while i < n
            invariant
                old(self).wf(),
                n == old(self).entries@.len(),
                self.entries@.len() == n,
                i <= n,
                self.wf(),
                forall|k: int| i <= k < n ==> self.entries@[k] == old(self).entries@[k],
                forall|k: int|
                    0 <= k < i ==> EntityAnims::advanced_by(
                        old(self).entries@[k],
                        delta_ms,
                        #[trigger] self.entries@[k],
                    ),
            decreases n - i,
        {
            self.entries[i].advance_active(delta_ms);
            i = i + 1;
        }
    }

    /// Playback cursor of the clip named `name` on entity `e`, or
    /// `None` if no such clip is registered.
    pub fn clip_state(&self, e: u64, name: &String) -> (r: Option<ClipState>)
        requires
            self.wf(),
        ensures
            r is Some <==> self.has_entity(e) && self.entity_view(e).has_clip(name@),
            r matches Some(st) ==> st == self.entity_view(e).clips@[self.entity_view(
                e,
            ).clip_index(name@)].state,
    {
        let i = match self.find_entity(e) {
            None => { return None; },
            Some(i) => i,
        };
        let j = match self.entries[i].find_clip(name) {
            None => { return None; },
            Some(j) => j,
        };
        Some(self.entries[i].clips[j].state)
    }

    /// How many repeats the clip named `name` on entity `e` still has
    /// to play, or `None` if no such clip is registered. Looping and
    /// infinitely repeating clips report 0.
    pub fn clip_repeats_left(&self, e: u64, name: &String) -> (r: Option<u32>)
        requires
            self.wf(),
        ensures
            r is Some <==> self.has_entity(e) && self.entity_view(e).has_clip(name@),
            r matches Some(reps) ==> ({
                let ce = self.entity_view(e).clips@[self.entity_view(e).clip_index(name@)];
                reps == ce.state.spec_repeats_left(ce.def)
            }),
    {
        let i = match self.find_entity(e) {
            None => { return None; },
            Some(i) => i,
        };
        let j = match self.entries[i].find_clip(name) {
            None => { return None; },
            Some(j) => j,
        };
        let ce = &self.entries[i].clips[j];
        Some(ce.state.repeats_left(&ce.def))
    }

    /// Name of the clip presently driving entity `e`, or `None` if
    /// the entity is idle or unregistered.
    pub fn active_name(&self, e: u64) -> (r: Option<String>)
        requires
            self.wf(),
        ensures
            r is Some <==> self.has_entity(e) && self.entity_view(e).active is Some,
            r matches Some(s) ==> self.entity_view(e).active matches Some(a) && s@ == a.name@,
    {
        let i = match self.find_entity(e) {
            None => { return None; },
            Some(i) => i,
        };
        match &self.entries[i].active {
            Some(a) => Some(a.name.clone()),
            None => None,
        }
    }

    /// Law: an activation request for an entity with no registered
    /// clips changes nothing at all; in particular the entity is as
    /// unregistered after as before.
    pub proof fn lemma_activate_unregistered_noop(
        pre: Animations,
        post: Animations,
        e: u64,
        name: Seq<char>,
    )
        requires
            Animations::activate_rel(pre, post, e, name),
            !pre.has_entity(e),
        ensures
            post == pre,
            !post.has_entity(e),
    {
    }

    /// Law: while the active clip of an entity is locked and still
    /// playing, an activation request leaves the registry — and so
    /// the active clip — unchanged.
    pub proof fn lemma_activate_locked_noop(
        pre: Animations,
        post: Animations,
        e: u64,
        name: Seq<char>,
    )
        requires
            Animations::activate_rel(pre, post, e, name),
            pre.has_entity(e),
            pre.entity_view(e).activation_blocked(),
        ensures
            post == pre,
    {
    }

    /// Law: when the active clip of an entity is non-looping with a
    /// single repeat, advancing by `delta_ms` finishes it exactly
    /// when its elapsed time reaches one full cycle — and the moment
    /// it finishes, the entity's active slot is cleared.
    pub proof fn lemma_single_play_clears(pre: EntityAnims, delta_ms: u64, post: EntityAnims)
        requires
            pre.wf(),
            EntityAnims::advanced_by(pre, delta_ms, post),
            pre.active matches Some(a) && ({
                let j = pre.clip_index(a.name@);
                let def = pre.clips@[j].def;
                &&& !def.looping
                &&& def.repeat == 1
                &&& pre.clips@[j].state.elapsed_ms + delta_ms <= u64::MAX
            }),
        ensures
            pre.active matches Some(a) && ({
                let j = pre.clip_index(a.name@);
                let def = pre.clips@[j].def;
                let e2 = pre.clips@[j].state.elapsed_ms + delta_ms;
                &&& (post.clips@[j].state.finished <==> e2 >= def.total_ms())
                &&& e2 >= def.total_ms() ==> post.active is None
                &&& e2 < def.total_ms() ==> post.active == pre.active
            }),
    {
        match pre.active {
            Some(a) => {
                let j = pre.clip_index(a.name@);
                let def = pre.clips@[j].def;
                let e2 = pre.clips@[j].state.elapsed_ms + delta_ms;
                crate::playback::lemma_single_play_finishes(def, e2 as nat);
            },
            None => {},
        }
    }
}

} // verus!
