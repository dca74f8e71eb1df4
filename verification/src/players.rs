use vstd::prelude::*;

use crate::advantages::{
    AbsoluteDirection, Advantage, Disadvantage, Duty, EiditicMemory, Luck, SenseOfDuty, Wealth,
};
use crate::attributes::{AttributeType, Attributes};
use crate::cost::total;
use crate::damage::BaseDamage;
use crate::encumbrance::Encumbrance;
use crate::special_features::SpecialFeatures;
use crate::stats::{basic_lift_of, Stats};

verus! {

/// All that the rules derive for one character: the attributes, what follows
/// from them, the traits and what the traits cost.
#[derive(Debug, Clone, PartialEq, Eq)]
pub struct CharacterSheet {
    attributes: Attributes,
    stats: Stats,
    base_damage: BaseDamage,
    encumbrance: Encumbrance,
    features: SpecialFeatures,
    advantages_cost: i64,
    disadvantages_cost: i64,
}

impl CharacterSheet {
    pub closed spec fn spec_attributes(&self) -> Attributes {
        self.attributes
    }

    pub closed spec fn spec_stats(&self) -> Stats {
        self.stats
    }

    pub closed spec fn spec_base_damage(&self) -> BaseDamage {
        self.base_damage
    }

    pub closed spec fn spec_encumbrance(&self) -> Encumbrance {
        self.encumbrance
    }

    pub closed spec fn spec_features(&self) -> &SpecialFeatures {
        &self.features
    }

    pub closed spec fn spec_advantages_cost(&self) -> i64 {
        self.advantages_cost
    }

    pub closed spec fn spec_disadvantages_cost(&self) -> i64 {
        self.disadvantages_cost
    }

    /// Whether a sheet can hold what follows from these attributes and
    /// traits: the loads and the costs are numbers that fit.
    pub open spec fn can_be_drawn_up(
        attributes: Attributes,
        advantages: Seq<Advantage>,
        disadvantages: Seq<Disadvantage>,
    ) -> bool {
        &&& basic_lift_of(attributes.value(&AttributeType::Strength) as nat) * 10 <= usize::MAX
        &&& forall|i: int|
            0 <= i < advantages.len() ==> (#[trigger] advantages[i]).points() <= i64::MAX
        &&& forall|i: int|
            0 <= i < disadvantages.len() ==> (#[trigger] disadvantages[i]).points() >= -i64::MAX
        &&& i64::MIN <= Advantage::total_points(advantages) <= i64::MAX
        &&& i64::MIN <= Disadvantage::total_points(disadvantages) <= i64::MAX
    }

    /// Whether the sheet is the one that the rules derive from these
    /// attributes and traits.
    pub open spec fn is_drawn_up_from(
        &self,
        attributes: Attributes,
        advantages: Seq<Advantage>,
        disadvantages: Seq<Disadvantage>,
    ) -> bool {
        let st = attributes.value(&AttributeType::Strength) as nat;
        let dx = attributes.value(&AttributeType::Dexterity) as nat;
        let ht = attributes.value(&AttributeType::Health) as nat;
        &&& self.attributes() == attributes
        &&& self.stats().follows_from(st, dx, ht)
        &&& self.base_damage().is_for_strength(st)
        &&& self.encumbrance().follows_from(basic_lift_of(st), (ht + dx) / 4, (ht + dx) / 4)
        &&& self.features().spec_advantages() == advantages
        &&& self.features().spec_disadvantages() == disadvantages
        &&& self.features().spec_perks().len() == 0
        &&& self.advantages_cost() == Advantage::total_points(advantages)
        &&& self.disadvantages_cost() == Disadvantage::total_points(disadvantages)
    }

    /// Draws up the sheet of a character with these attributes and traits.
    pub fn draw_up(
        attributes: Attributes,
        advantages: Vec<Advantage>,
        disadvantages: Vec<Disadvantage>,
    ) -> (sheet: Self)
        requires
            Self::can_be_drawn_up(attributes, advantages@, disadvantages@),
        ensures
            sheet.is_drawn_up_from(attributes, advantages@, disadvantages@),
    {
        let stats = Stats::from(attributes);
        let base_damage = BaseDamage::from(attributes);
        let encumbrance = Encumbrance::from(&stats);
        let advantages_cost = Advantage::total_cost(&advantages);
        let disadvantages_cost = Disadvantage::total_cost(&disadvantages);
        let features = SpecialFeatures::new(advantages, disadvantages, Vec::new());
        CharacterSheet {
            attributes,
            stats,
            base_damage,
            encumbrance,
            features,
            advantages_cost,
            disadvantages_cost,
        }
    }

    #[verifier::when_used_as_spec(spec_attributes)]
    pub fn attributes(&self) -> (attributes: Attributes)
        ensures
            attributes == self.attributes(),
    {
        self.attributes
    }

    #[verifier::when_used_as_spec(spec_stats)]
    pub fn stats(&self) -> (stats: Stats)
        ensures
            stats == self.stats(),
    {
        self.stats
    }

    #[verifier::when_used_as_spec(spec_base_damage)]
    pub fn base_damage(&self) -> (base_damage: BaseDamage)
        ensures
            base_damage == self.base_damage(),
    {
        self.base_damage
    }

    #[verifier::when_used_as_spec(spec_encumbrance)]
    pub fn encumbrance(&self) -> (encumbrance: Encumbrance)
        ensures
            encumbrance == self.encumbrance(),
    {
        self.encumbrance
    }

    #[verifier::when_used_as_spec(spec_features)]
    pub fn features(&self) -> (features: &SpecialFeatures)
        ensures
            features == self.features(),
    {
        &self.features
    }

    #[verifier::when_used_as_spec(spec_advantages_cost)]
    pub fn advantages_cost(&self) -> (cost: i64)
        ensures
            cost == self.advantages_cost(),
    {
        self.advantages_cost
    }

    #[verifier::when_used_as_spec(spec_disadvantages_cost)]
    pub fn disadvantages_cost(&self) -> (cost: i64)
        ensures
            cost == self.disadvantages_cost(),
    {
        self.disadvantages_cost
    }
}

/// The characters that come with the library.
pub struct Players;

impl Players {
    /// The advantages of Paeva, in the order of her sheet.
    pub open spec fn paeva_advantages() -> Seq<Advantage> {
        seq![
            Advantage::AbsoluteDirection(AbsoluteDirection::Normal),
            Advantage::Ambidexterity,
            Advantage::AnimalEmpathy,
            Advantage::IndependentIncome(1),
            Advantage::Luck(Luck::Normal),
            Advantage::Status(2),
            Advantage::Wealth(Wealth::VeryWealthy),
            Advantage::Voice,
        ]
    }

    /// The disadvantages of Paeva, in the order of her sheet.
    pub open spec fn paeva_disadvantages() -> Seq<Disadvantage> {
        seq![
            Disadvantage::Duty(Duty::FairlyOften),
            Disadvantage::Selfless,
            Disadvantage::SenseOfDuty(SenseOfDuty::LargeGroup),
        ]
    }

    /// The sheet of Paeva: Strength 8, Dexterity 12, Intelligence 11 and
    /// Health 9, with 9 hit points. Her advantages cost 81 points and her
    /// disadvantages give 20 back.
    pub fn paeva() -> (sheet: CharacterSheet)
        ensures
            sheet.attributes().value(&AttributeType::Strength) == 8,
            sheet.attributes().value(&AttributeType::Dexterity) == 12,
            sheet.attributes().value(&AttributeType::Intelligence) == 11,
            sheet.attributes().value(&AttributeType::Health) == 9,
            sheet.attributes().value(&AttributeType::HitPoints) == 9,
            sheet.attributes().value(&AttributeType::Willpower) == 11,
            sheet.attributes().value(&AttributeType::Perception) == 11,
            sheet.attributes().value(&AttributeType::Fatigue) == 9,
            sheet.is_drawn_up_from(
                sheet.attributes(),
                Self::paeva_advantages(),
                Self::paeva_disadvantages(),
            ),
            sheet.stats().basic_lift() == 12,
            sheet.stats().basic_move() == 5,
            sheet.stats().basic_speed().in_quarters() == 21,
            sheet.base_damage().thrust().level().rolls((1, -3)),
            sheet.base_damage().swing().level().rolls((1, -2)),
            sheet.advantages_cost() == 81,
            sheet.disadvantages_cost() == -20,
    {
        let attributes = Attributes::from_vec(vec![8, 12, 11, 9, 9, 11, 11, 9]);
        let advantages = vec![
            Advantage::AbsoluteDirection(AbsoluteDirection::Normal),
            Advantage::Ambidexterity,
            Advantage::AnimalEmpathy,
            Advantage::IndependentIncome(1),
            Advantage::Luck(Luck::Normal),
            Advantage::Status(2),
            Advantage::Wealth(Wealth::VeryWealthy),
            Advantage::Voice,
        ];
        let disadvantages = vec![
            Disadvantage::Duty(Duty::FairlyOften),
            Disadvantage::Selfless,
            Disadvantage::SenseOfDuty(SenseOfDuty::LargeGroup),
        ];
        proof {
            assert(advantages@ =~= Self::paeva_advantages());
            assert(disadvantages@ =~= Self::paeva_disadvantages());
            reveal_with_fuel(total, 9);
            assert(Advantage::total_points(advantages@) == 81);
            assert(Disadvantage::total_points(disadvantages@) == -20);
        }
        CharacterSheet::draw_up(attributes, advantages, disadvantages)
    }

    /// The advantages of Tanithas, in the order of his sheet.
    pub open spec fn tanithas_advantages() -> Seq<Advantage> {
        seq![
            Advantage::Ambidexterity,
            Advantage::BardicTalent(3),
            Advantage::EasyCasting(1),
            Advantage::EiditicMemory(EiditicMemory::Photographic),
            Advantage::LessSleep(2),
            Advantage::Magery(3),
            Advantage::ReducedConsumption(2),
            Advantage::StableCasting,
        ]
    }

    /// The disadvantages of Tanithas, in the order of his sheet.
    pub open spec fn tanithas_disadvantages() -> Seq<Disadvantage> {
        seq![Disadvantage::Destiny(60), Disadvantage::SocialStigma(4), Disadvantage::Status(3)]
    }

    /// The sheet of Tanithas: Strength 8, Dexterity 8, Intelligence 19 and
    /// Health 8, with the other four attributes as these give them. His
    /// advantages cost 92 points and his disadvantages give 95 back.
    pub fn tanithas() -> (sheet: CharacterSheet)
        ensures
            sheet.attributes().value(&AttributeType::Strength) == 8,
            sheet.attributes().value(&AttributeType::Dexterity) == 8,
            sheet.attributes().value(&AttributeType::Intelligence) == 19,
            sheet.attributes().value(&AttributeType::Health) == 8,
            sheet.attributes().value(&AttributeType::HitPoints) == 8,
            sheet.attributes().value(&AttributeType::Willpower) == 19,
            sheet.attributes().value(&AttributeType::Perception) == 19,
            sheet.attributes().value(&AttributeType::Fatigue) == 8,
            sheet.is_drawn_up_from(
                sheet.attributes(),
                Self::tanithas_advantages(),
                Self::tanithas_disadvantages(),
            ),
            sheet.stats().basic_lift() == 12,
            sheet.stats().basic_move() == 4,
            sheet.stats().basic_speed().in_quarters() == 16,
            sheet.base_damage().thrust().level().rolls((1, -3)),
            sheet.base_damage().swing().level().rolls((1, -2)),
            sheet.advantages_cost() == 92,
            sheet.disadvantages_cost() == -95,
    {
        let attributes = Attributes::from_base(8, 8, 19, 8);
        let advantages = vec![
            Advantage::Ambidexterity,
            Advantage::BardicTalent(3),
            Advantage::EasyCasting(1),
            Advantage::EiditicMemory(EiditicMemory::Photographic),
            Advantage::LessSleep(2),
            Advantage::Magery(3),
            Advantage::ReducedConsumption(2),
            Advantage::StableCasting,
        ];
        let disadvantages = vec![
            Disadvantage::Destiny(60),
            Disadvantage::SocialStigma(4),
            Disadvantage::Status(3),
        ];
        proof {
            assert(advantages@ =~= Self::tanithas_advantages());
            assert(disadvantages@ =~= Self::tanithas_disadvantages());
            reveal_with_fuel(total, 9);
            assert(Advantage::total_points(advantages@) == 92);
            assert(Disadvantage::total_points(disadvantages@) == -95);
        }
        CharacterSheet::draw_up(attributes, advantages, disadvantages)
    }
}

} // verus!
