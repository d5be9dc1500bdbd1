//! Fence gates: a gate opens when the player walks into its sensor
//! while no gate animation is running, and closes again when the
//! player leaves.

use vstd::prelude::*;

verus! {

/// One gate's bookkeeping: whether the player is inside its sensor
/// and whether it stands open.
#[derive(Clone, Copy, Debug, PartialEq, Eq, Structural, Default)]
pub struct Gate {
    pub in_collision: bool,
    pub open: bool,
}

impl Gate {
    /// One collision-check pass for this gate. `intersecting` says
    /// whether the player stands in the sensor zone; `in_animation`
    /// carries the registry's view of its entity — `None`
    /// while it has no registered clips.
    ///
    /// A closed, untouched gate whose entity is registered and idle
    /// opens when the player arrives; an open, touched gate closes
    /// when the player leaves. The returned clip name is the
    /// animation to play, if any.
    pub fn tick(&mut self, intersecting: bool, in_animation: Option<bool>) -> (r: Option<
        &'static str,
    >)
        ensures
            intersecting && in_animation == Some(false) && !old(self).open && !old(
                self,
            ).in_collision ==> {
                &&& *final(self) == (Gate { in_collision: true, open: true })
                &&& r matches Some(s) && s@ == "gate_opening"@
            },
            !intersecting && old(self).in_collision && old(self).open ==> {
                &&& *final(self) == (Gate { in_collision: false, open: false })
                &&& r matches Some(s) && s@ == "gate_closing"@
            },
            !(intersecting && in_animation == Some(false) && !old(self).open && !old(
                self,
            ).in_collision) && !(!intersecting && old(self).in_collision && old(self).open) ==> {
                &&& *final(self) == *old(self)
                &&& r is None
            },
    {
        if intersecting {
            match in_animation {
                Some(in_anim) => {
                    if !self.open && !self.in_collision && !in_anim {
                        self.in_collision = true;
                        self.open = true;
                        return Some("gate_opening");
                    }
                },
                None => {},
            }
        } else if self.in_collision && self.open {
            self.in_collision = false;
            self.open = false;
            return Some("gate_closing");
        }
        None
    }
}

} // verus!
