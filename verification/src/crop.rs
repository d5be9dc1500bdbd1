//! Crops: their kind, the sprite atlas each kind is drawn from,
//! highlight switching when the player stands near one, growth
//! through five stages on a timer, and the chance of being trampled
//! to death underfoot.

use vstd::prelude::*;

use crate::random::sample_range;

verus! {

/// Chance, in percent points, that a step on a living crop kills it.
pub const CROP_KILL_CHANCE: u64 = 30;

/// Last growth stage a crop reaches.
pub const MAX_CROP_STAGE: usize = 5;

/// Kind of crop, with a highlighted twin for each living kind used
/// while the player is close enough to harvest.
#[derive(Clone, Copy, Debug, PartialEq, Eq, Structural)]
pub enum CropType {
    Potato,
    PotatoHighlighted,
    CarrotHighlighted,
    Carrot,
    CornHighlighted,
    Corn,
    CabbageHighlighted,
    Cabbage,
    Dead,
    DeadHighlighted,
}

impl CropType {
    /// Name of the texture atlas this kind is drawn from.
    pub open spec fn spec_atlas_name(self) -> Seq<char> {
        match self {
            CropType::Potato => "potato_growth"@,
            CropType::PotatoHighlighted => "potato_growth_highlighted"@,
            CropType::Carrot => "carrot_growth"@,
            CropType::CarrotHighlighted => "carrot_growth_highlighted"@,
            CropType::Corn => "corn_growth"@,
            CropType::CornHighlighted => "corn_growth_highlighted"@,
            CropType::Cabbage => "cabbage_growth"@,
            CropType::CabbageHighlighted => "cabbage_growth_highlighted"@,
            CropType::Dead => "dead_crop"@,
            CropType::DeadHighlighted => "dead_crop_highlighted"@,
        }
    }

    /// Executable form of `spec_atlas_name`.
    pub fn atlas_name(&self) -> (r: &'static str)
        ensures
            r@ == self.spec_atlas_name(),
    {
        match self {
            CropType::Potato => "potato_growth",
            CropType::PotatoHighlighted => "potato_growth_highlighted",
            CropType::Carrot => "carrot_growth",
            CropType::CarrotHighlighted => "carrot_growth_highlighted",
            CropType::Corn => "corn_growth",
            CropType::CornHighlighted => "corn_growth_highlighted",
            CropType::Cabbage => "cabbage_growth",
            CropType::CabbageHighlighted => "cabbage_growth_highlighted",
            CropType::Dead => "dead_crop",
            CropType::DeadHighlighted => "dead_crop_highlighted",
        }
    }

    /// The highlighted twin of this kind (idempotent).
    pub open spec fn spec_to_highlighted(self) -> CropType {
        match self {
            CropType::Potato | CropType::PotatoHighlighted => CropType::PotatoHighlighted,
            CropType::Carrot | CropType::CarrotHighlighted => CropType::CarrotHighlighted,
            CropType::Corn | CropType::CornHighlighted => CropType::CornHighlighted,
            CropType::Cabbage | CropType::CabbageHighlighted => CropType::CabbageHighlighted,
            CropType::Dead | CropType::DeadHighlighted => CropType::DeadHighlighted,
        }
    }

    /// Executable form of `spec_to_highlighted`.
    pub fn to_highlighted(&self) -> (r: CropType)
        ensures
            r == self.spec_to_highlighted(),
    {
        match self {
            CropType::Potato | CropType::PotatoHighlighted => CropType::PotatoHighlighted,
            CropType::Carrot | CropType::CarrotHighlighted => CropType::CarrotHighlighted,
            CropType::Corn | CropType::CornHighlighted => CropType::CornHighlighted,
            CropType::Cabbage | CropType::CabbageHighlighted => CropType::CabbageHighlighted,
            CropType::Dead | CropType::DeadHighlighted => CropType::DeadHighlighted,
        }
    }

    /// The plain twin of this kind (idempotent).
    pub open spec fn spec_to_normal(self) -> CropType {
        match self {
            CropType::Potato | CropType::PotatoHighlighted => CropType::Potato,
            CropType::Carrot | CropType::CarrotHighlighted => CropType::Carrot,
            CropType::Corn | CropType::CornHighlighted => CropType::Corn,
            CropType::Cabbage | CropType::CabbageHighlighted => CropType::Cabbage,
            CropType::Dead | CropType::DeadHighlighted => CropType::Dead,
        }
    }

    /// Executable form of `spec_to_normal`.
    pub fn to_normal(&self) -> (r: CropType)
        ensures
            r == self.spec_to_normal(),
    {
        match self {
            CropType::Potato | CropType::PotatoHighlighted => CropType::Potato,
            CropType::Carrot | CropType::CarrotHighlighted => CropType::Carrot,
            CropType::Corn | CropType::CornHighlighted => CropType::Corn,
            CropType::Cabbage | CropType::CabbageHighlighted => CropType::Cabbage,
            CropType::Dead | CropType::DeadHighlighted => CropType::Dead,
        }
    }

    /// Whether the crop is dead (in either twin).
    pub open spec fn spec_is_dead(self) -> bool {
        self == CropType::Dead || self == CropType::DeadHighlighted
    }

    /// Lowest growth-timer duration this kind can roll, in whole
    /// seconds.
    pub open spec fn duration_lo(self) -> u64 {
        match self {
            CropType::Potato | CropType::PotatoHighlighted => 50,
            CropType::Carrot | CropType::CarrotHighlighted => 80,
            CropType::Corn | CropType::CornHighlighted => 45,
            CropType::Cabbage | CropType::CabbageHighlighted => 100,
            CropType::Dead | CropType::DeadHighlighted => 1,
        }
    }

    /// One past the highest growth-timer duration this kind can roll,
    /// in whole seconds.
    pub open spec fn duration_hi(self) -> u64 {
        match self {
            CropType::Potato | CropType::PotatoHighlighted => 75,
            CropType::Carrot | CropType::CarrotHighlighted => 100,
            CropType::Corn | CropType::CornHighlighted => 65,
            CropType::Cabbage | CropType::CabbageHighlighted => 125,
            CropType::Dead | CropType::DeadHighlighted => 2,
        }
    }

    /// Rolls this kind's growth-timer duration in whole seconds: a
    /// fresh draw from the kind's range on every call; dead crops
    /// always get one second.
    pub fn duration(&self) -> (r: u64)
        ensures
            self.duration_lo() <= r < self.duration_hi(),
    {
        match self {
            CropType::Potato | CropType::PotatoHighlighted => sample_range(50, 75),
            CropType::Carrot | CropType::CarrotHighlighted => sample_range(80, 100),
            CropType::Corn | CropType::CornHighlighted => sample_range(45, 65),
            CropType::Cabbage | CropType::CabbageHighlighted => sample_range(100, 125),
            CropType::Dead | CropType::DeadHighlighted => 1,
        }
    }

    /// Rolls a growth-timer duration for the given kind; same draw as
    /// `duration`.
    pub fn duration_from(value: &CropType) -> (r: u64)
        ensures
            value.duration_lo() <= r < value.duration_hi(),
    {
        value.duration()
    }
}

/// One planted crop: its growth stage (1 up to `MAX_CROP_STAGE`), its
/// kind, and whether the player's foot is presently on it.
#[derive(Clone, Copy, Debug)]
pub struct Crop {
    pub stage: usize,
    pub crop_type: CropType,
    pub in_collision: bool,
}

impl Crop {
    /// A freshly planted crop at stage 1.
    pub fn new(crop_type: CropType) -> (r: Crop)
        ensures
            r.stage == 1,
            r.crop_type == crop_type,
            !r.in_collision,
    {
        Crop { stage: 1, crop_type, in_collision: false }
    }

    /// One growth-timer tick: when the timer has just finished and
    /// the crop is alive and below its last stage, it moves one stage
    /// up and reports the sprite cell to show (one less than the old
    /// stage); otherwise nothing changes.
    pub fn grow(&mut self, timer_finished: bool) -> (r: Option<usize>)
        requires
            1 <= old(self).stage,
        ensures
            final(self).crop_type == old(self).crop_type,
            final(self).in_collision == old(self).in_collision,
            timer_finished && !old(self).crop_type.spec_is_dead() && old(self).stage + 1
                <= MAX_CROP_STAGE ==> {
                &&& final(self).stage == old(self).stage + 1
                &&& r == Some((old(self).stage - 1) as usize)
            },
            !(timer_finished && !old(self).crop_type.spec_is_dead() && old(self).stage + 1
                <= MAX_CROP_STAGE) ==> {
                &&& final(self).stage == old(self).stage
                &&& r is None
            },
    {
        let dead = match self.crop_type {
            CropType::Dead | CropType::DeadHighlighted => true,
            _ => false,
        };
        if timer_finished && !dead && self.stage < MAX_CROP_STAGE {
            let cell = self.stage - 1;
            self.stage = self.stage + 1;
            Some(cell)
        } else {
            None
        }
    }

    /// The decision made when the player's foot collider overlaps
    /// this crop's, given a percent roll: a living, newly stepped-on
    /// crop dies when the roll is within the kill chance. Reports
    /// whether the crop died on this step (so the caller can swap its
    /// sprite).
    pub fn trample(&mut self, roll: u64) -> (died: bool)
        requires
            roll < 100,
        ensures
            final(self).in_collision,
            final(self).stage == old(self).stage,
            died <==> roll <= CROP_KILL_CHANCE && !old(self).in_collision,
            died ==> final(self).crop_type == CropType::Dead,
            !died ==> final(self).crop_type == old(self).crop_type,
    {
        let died = roll <= CROP_KILL_CHANCE && !self.in_collision;
        if died {
            self.crop_type = CropType::Dead;
        }
        self.in_collision = true;
        died
    }

    /// A step on this crop with a fresh percent roll. Whatever the
    /// roll, the crop is marked stepped-on and keeps its stage; it can
    /// die only if it was alive and not already stepped on.
    pub fn step_on(&mut self) -> (died: bool)
        ensures
            final(self).in_collision,
            final(self).stage == old(self).stage,
            died ==> final(self).crop_type == CropType::Dead && !old(self).in_collision,
            !died ==> final(self).crop_type == old(self).crop_type,
    {
        let roll = sample_range(0, 100);
        self.trample(roll)
    }

    /// The player's foot has left this crop.
    pub fn clear_contact(&mut self)
        ensures
            *final(self) == (Crop { in_collision: false, ..*old(self) }),
    {
        self.in_collision = false;
    }
}

} // verus!
