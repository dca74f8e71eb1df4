use vstd::prelude::*;

verus! {

/// A set of places where a blow can land. A roll of three dice picks the
/// place, and each place has its own penalty to hit.
///
/// Rolls run from 3 to 18, but every `usize` is answered: a roll under 3
/// falls in the first band, a roll over 18 in the last.
pub trait BodyLocation {
    type Location;

    /// The place that `roll` picks: the bands are 0..5, 5..8, 8..14, 14..17
    /// and 17 and up.
    spec fn place(roll: nat) -> Self::Location;

    /// The penalty to hit this place.
    spec fn penalty(&self) -> int;

    fn from_roll(roll: usize) -> (location: Self::Location)
        ensures
            location == Self::place(roll as nat),
    ;

    fn to_hit(&self) -> (penalty: isize)
        ensures
            penalty == self.penalty(),
    ;
}

/// The four areas of the body.
#[derive(Debug, Copy, Clone, PartialEq, Eq, Structural, PartialOrd, Ord, Hash)]
pub enum BodyArea {
    Head,
    Torso,
    Arms,
    Legs,
}

impl BodyLocation for BodyArea {
    type Location = Self;

    open spec fn place(roll: nat) -> Self {
        if roll < 5 {
            BodyArea::Head
        } else if roll < 8 {
            BodyArea::Arms
        } else if roll < 14 {
            BodyArea::Torso
        } else if roll < 17 {
            BodyArea::Legs
        } else {
            BodyArea::Head
        }
    }

    open spec fn penalty(&self) -> int {
        match *self {
            BodyArea::Head => -5,
            BodyArea::Torso => 0,
            BodyArea::Arms => -2,
            BodyArea::Legs => -2,
        }
    }

    fn from_roll(roll: usize) -> (location: Self) {
        match roll {
            0..5 => Self::Head,
            5..8 => Self::Arms,
            8..14 => Self::Torso,
            14..17 => Self::Legs,
            17.. => Self::Head,
        }
    }

    fn to_hit(&self) -> (penalty: isize) {
        match self {
            Self::Head => -5,
            Self::Torso => 0,
            Self::Arms => -2,
            Self::Legs => -2,
        }
    }
}

/// The places of the head.
#[derive(Debug, Copy, Clone, PartialEq, Eq, Structural, PartialOrd, Ord, Hash)]
pub enum Head {
    Skull,
    Eyes,
    Face,
    Neck,
}

impl BodyLocation for Head {
    type Location = Self;

    open spec fn place(roll: nat) -> Self {
        if roll < 5 {
            Head::Eyes
        } else if roll < 8 {
            Head::Face
        } else if roll < 14 {
            Head::Skull
        } else if roll < 17 {
            Head::Neck
        } else {
            Head::Eyes
        }
    }

    open spec fn penalty(&self) -> int {
        match *self {
            Head::Skull => -7,
            Head::Eyes => -9,
            Head::Face => -5,
            Head::Neck => -5,
        }
    }

    fn from_roll(roll: usize) -> (location: Self) {
        match roll {
            0..5 => Self::Eyes,
            5..8 => Self::Face,
            8..14 => Self::Skull,
            14..17 => Self::Neck,
            17.. => Self::Eyes,
        }
    }

    fn to_hit(&self) -> (penalty: isize) {
        match self {
            Self::Skull => -7,
            Self::Eyes => -9,
            Self::Face => -5,
            Self::Neck => -5,
        }
    }
}

/// The places of the torso.
///
/// The printed tables of the ruleset do not agree on the torso: one has
/// three places, chest, abdomen and vitals, with lighter penalties; the
/// other, on page 399 of the Basic Set, adds the groin. This library follows
/// page 399 throughout, for the other areas too.
#[derive(Debug, Copy, Clone, PartialEq, Eq, Structural, PartialOrd, Ord, Hash)]
pub enum Torso {
    Chest,
    Abdomen,
    Vitals,
    Groin,
}

impl BodyLocation for Torso {
    type Location = Self;

    open spec fn place(roll: nat) -> Self {
        if roll < 5 {
            Torso::Groin
        } else if roll < 8 {
            Torso::Abdomen
        } else if roll < 14 {
            Torso::Chest
        } else if roll < 17 {
            Torso::Vitals
        } else {
            Torso::Groin
        }
    }

    open spec fn penalty(&self) -> int {
        match *self {
            Torso::Chest => -2,
            Torso::Abdomen => -2,
            Torso::Vitals => -3,
            Torso::Groin => -3,
        }
    }

    fn from_roll(roll: usize) -> (location: Self) {
        match roll {
            0..5 => Self::Groin,
            5..8 => Self::Abdomen,
            8..14 => Self::Chest,
            14..17 => Self::Vitals,
            17.. => Self::Groin,
        }
    }

    fn to_hit(&self) -> (penalty: isize) {
        match self {
            Self::Chest => -2,
            Self::Abdomen => -2,
            Self::Vitals => -3,
            Self::Groin => -3,
        }
    }
}

/// The places of the arms.
///
/// An older table of the ruleset gives rolls of 17 and up to the elbows.
/// Here the last band wraps round to the hands, as it does in every other
/// set, so no roll reaches `Elbows`: the elbows can only be named, as the
/// aim of a blow.
#[derive(Debug, Copy, Clone, PartialEq, Eq, Structural, PartialOrd, Ord, Hash)]
pub enum Arms {
    Shoulders,
    Upper,
    Forearms,
    Elbows,
    Hands,
}

impl BodyLocation for Arms {
    type Location = Self;

    open spec fn place(roll: nat) -> Self {
        if roll < 5 {
            Arms::Hands
        } else if roll < 8 {
            Arms::Shoulders
        } else if roll < 14 {
            Arms::Forearms
        } else if roll < 17 {
            Arms::Upper
        } else {
            Arms::Hands
        }
    }

    open spec fn penalty(&self) -> int {
        match *self {
            Arms::Shoulders => -2,
            Arms::Upper => -2,
            Arms::Forearms => -2,
            Arms::Elbows => -3,
            Arms::Hands => -4,
        }
    }

    fn from_roll(roll: usize) -> (location: Self) {
        match roll {
            0..5 => Self::Hands,
            5..8 => Self::Shoulders,
            8..14 => Self::Forearms,
            14..17 => Self::Upper,
            17.. => Self::Hands,
        }
    }

    fn to_hit(&self) -> (penalty: isize) {
        match self {
            Self::Shoulders => -2,
            Self::Upper => -2,
            Self::Forearms => -2,
            Self::Elbows => -3,
            Self::Hands => -4,
        }
    }
}

/// The places of the legs.
#[derive(Debug, Copy, Clone, PartialEq, Eq, Structural, PartialOrd, Ord, Hash)]
pub enum Legs {
    Thighs,
    Knees,
    Shins,
    Feet,
}

impl BodyLocation for Legs {
    type Location = Self;

    open spec fn place(roll: nat) -> Self {
        if roll < 5 {
            Legs::Feet
        } else if roll < 8 {
            Legs::Knees
        } else if roll < 14 {
            Legs::Thighs
        } else if roll < 17 {
            Legs::Shins
        } else {
            Legs::Feet
        }
    }

    open spec fn penalty(&self) -> int {
        match *self {
            Legs::Thighs => -2,
            Legs::Knees => -3,
            Legs::Shins => -2,
            Legs::Feet => -4,
        }
    }

    fn from_roll(roll: usize) -> (location: Self) {
        match roll {
            0..5 => Self::Feet,
            5..8 => Self::Knees,
            8..14 => Self::Thighs,
            14..17 => Self::Shins,
            17.. => Self::Feet,
        }
    }

    fn to_hit(&self) -> (penalty: isize) {
        match self {
            Self::Thighs => -2,
            Self::Knees => -3,
            Self::Shins => -2,
            Self::Feet => -4,
        }
    }
}

/// In every set the last band wraps round: a roll of 17 or more lands where
/// a roll under 5 lands.
pub proof fn lemma_last_band_wraps(high: nat, low: nat)
    requires
        17 <= high,
        low < 5,
    ensures
        BodyArea::place(high) == BodyArea::place(low),
        Head::place(high) == Head::place(low),
        Torso::place(high) == Torso::place(low),
        Arms::place(high) == Arms::place(low),
        Legs::place(high) == Legs::place(low),
{
}

/// No roll lands on the elbows.
pub proof fn lemma_no_roll_reaches_the_elbows(roll: nat)
    ensures
        Arms::place(roll) != Arms::Elbows,
{
}

} // verus!
