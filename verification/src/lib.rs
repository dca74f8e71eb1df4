//! Character modelling for a tabletop role-playing ruleset: trait costs,
//! derived statistics, striking damage, encumbrance and hit locations.

pub mod advantages;
pub mod attributes;
pub mod body;
pub mod cost;
pub mod damage;
pub mod dice;
pub mod encumbrance;
pub mod players;
pub mod special_features;
pub mod stats;
pub mod text;

pub use advantages::{
    AbsoluteDirection, Advantage, Disadvantage, Duty, EiditicMemory, Flexible, Luck, Perk,
    SenseOfDuty, Wealth,
};
pub use attributes::{AttributeColumns, AttributeType, Attributes};
pub use body::{Arms, BodyArea, BodyLocation, Head, Legs, Torso};
pub use damage::{BaseDamage, CombatStats, DamageKind, DieLevel};
pub use dice::{Dice, Random};
pub use encumbrance::{
    Encumbrance, EncumbranceDodge, EncumbranceLevel, EncumbranceMove, EncumbranceWeight,
};
pub use players::{CharacterSheet, Players};
pub use special_features::SpecialFeatures;
pub use stats::{Speed, Stats};
