use vstd::prelude::*;

use crate::cost::{lemma_total_is_order_independent, lemma_total_of_costs, sum_costs, total};

verus! {

/// The advantages a character can buy. Some come in levels, some in named
/// grades.
#[derive(Debug, Copy, Clone, PartialEq, Eq, Structural, PartialOrd, Ord, Hash)]
pub enum Advantage {
    AbsoluteDirection(AbsoluteDirection),
    AcuteHearing(usize),
    AcuteVision(usize),
    Ambidexterity,
    AnimalEmpathy,
    Attractive,
    BardicTalent(usize),
    Charisma(usize),
    CombatReflexes,
    EasyCasting(usize),
    EiditicMemory(EiditicMemory),
    Fearless(usize),
    Flexible(Flexible),
    HardToKill(usize),
    HardToSubdue(usize),
    HighManualDexterity(usize),
    IndependentIncome(usize),
    Indomidable,
    LessSleep(usize),
    Luck(Luck),
    Magery(usize),
    MusicalAbility(usize),
    PerfectBalance,
    PlantEmpathy,
    Recovery,
    ReducedConsumption(usize),
    Silence(usize),
    SpeakWithAnimals,
    SpiritEmpathy,
    StableCasting,
    Status(usize),
    Striking(usize),
    Unaging,
    VeryFit,
    Voice,
    Wealth(Wealth),
}

impl Advantage {
    /// The character points that this advantage costs. An advantage that has
    /// no price yet counts as 0.
    pub open spec fn points(&self) -> int {
        match *self {
            Advantage::AbsoluteDirection(grade) => grade.points(),
            Advantage::Ambidexterity => 5,
            Advantage::AnimalEmpathy => 5,
            Advantage::BardicTalent(level) => level * 5,
            Advantage::CombatReflexes => 15,
            Advantage::EasyCasting(level) => level * 14,
            Advantage::EiditicMemory(grade) => grade.points(),
            Advantage::Flexible(grade) => grade.points(),
            Advantage::HighManualDexterity(level) => level * 5,
            Advantage::IndependentIncome(level) => level as int,
            Advantage::LessSleep(level) => level * 2,
            Advantage::Luck(grade) => grade.points(),
            Advantage::Magery(level) => level * 5 + 5,
            Advantage::PlantEmpathy => 5,
            Advantage::ReducedConsumption(level) => level * 2,
            Advantage::SpeakWithAnimals => 25,
            Advantage::StableCasting => 20,
            Advantage::Status(level) => level * 5,
            Advantage::Voice => 10,
            Advantage::Wealth(grade) => grade.points(),
            _ => 0,
        }
    }

    /// The point cost of this advantage. The level must be small enough for
    /// the cost to be an `i64`.
    pub fn cost(&self) -> (cost: i64)
        requires
            self.points() <= i64::MAX,
        ensures
            cost == self.points(),
    {
        match self {
            Self::AbsoluteDirection(level) => level.cost(),
            Self::Ambidexterity => 5,
            Self::AnimalEmpathy => 5,
            // 5 points per level
            Self::BardicTalent(level) => *level as i64 * 5,
            Self::CombatReflexes => 15,
            // 40% of what Magery costs
            Self::EasyCasting(level) => *level as i64 * 14,
            Self::EiditicMemory(level) => level.cost(),
            Self::Flexible(level) => level.cost(),
            // 5 points per level
            Self::HighManualDexterity(level) => *level as i64 * 5,
            Self::IndependentIncome(level) => *level as i64,
            // 2 points per level
            Self::LessSleep(level) => *level as i64 * 2,
            Self::Luck(level) => level.cost(),
            // 5 points for Magery 0, then 5 more for each level
            Self::Magery(level) => (*level as i64 * 5) + 5,
            Self::PlantEmpathy => 5,
            // 2 points per level
            Self::ReducedConsumption(level) => *level as i64 * 2,
            Self::SpeakWithAnimals => 25,
            Self::StableCasting => 20,
            Self::Status(level) => *level as i64 * 5,
            Self::Voice => 10,
            Self::Wealth(level) => level.cost(),
            _ => 0,
        }
    }

    /// The price of each advantage, as a function.
    pub open spec fn price() -> spec_fn(Advantage) -> int {
        |advantage: Advantage| advantage.points()
    }

    /// The points that a list of advantages costs together: the sum of
    /// their costs, with nothing capped and nothing counted once only.
    pub open spec fn total_points(list: Seq<Advantage>) -> int {
        total(list, Self::price())
    }

    /// The point cost of a list of advantages. Each cost and their sum have
    /// to be an `i64`.
    pub fn total_cost(list: &Vec<Advantage>) -> (sum: i64)
        requires
            forall|i: int| 0 <= i < list@.len() ==> (#[trigger] list@[i]).points() <= i64::MAX,
            i64::MIN <= Self::total_points(list@) <= i64::MAX,
        ensures
            sum == Self::total_points(list@),
    {
        let mut costs: Vec<i64> = Vec::new();
        let mut i: usize = 0;
        while i < list.len()
            invariant
                i <= list.len(),
                costs@.len() == i,
                forall|j: int| 0 <= j < list@.len() ==> (#[trigger] list@[j]).points() <= i64::MAX,
                forall|j: int| 0 <= j < i ==> costs@[j] == (#[trigger] list@[j]).points(),
            decreases list.len() - i,
        {
            costs.push(list[i].cost());
            i += 1;
        }
        proof {
            lemma_total_of_costs(list@, Self::price(), costs@);
        }
        sum_costs(&costs)
    }
}

/// How rich a character is, against the average of the setting.
#[derive(Debug, Copy, Clone, PartialEq, Eq, Structural, PartialOrd, Ord, Hash)]
pub enum Wealth {
    DeadBroke,
    Poor,
    Struggling,
    Average,
    Comfortable,
    Wealthy,
    VeryWealthy,
    FilthyRich,
    Multimillionaire,
}

impl Wealth {
    pub open spec fn points(&self) -> int {
        match *self {
            Wealth::DeadBroke => -25,
            Wealth::Poor => -15,
            Wealth::Struggling => -10,
            Wealth::Average => 0,
            Wealth::Comfortable => 10,
            Wealth::Wealthy => 20,
            Wealth::VeryWealthy => 30,
            Wealth::FilthyRich => 50,
            Wealth::Multimillionaire => 100,
        }
    }

    pub fn cost(&self) -> (cost: i64)
        ensures
            cost == self.points(),
    {
        match self {
            Self::DeadBroke => -25,
            Self::Poor => -15,
            Self::Struggling => -10,
            Self::Average => 0,
            Self::Comfortable => 10,
            Self::Wealthy => 20,
            Self::VeryWealthy => 30,
            Self::FilthyRich => 50,
            Self::Multimillionaire => 100,
        }
    }
}

impl Default for Wealth {
    fn default() -> (wealth: Self)
        ensures
            wealth == Wealth::Average,
    {
        Wealth::Average
    }
}

/// How sure a sense of direction is: of north alone, or of place in three
/// dimensions.
#[derive(Debug, Copy, Clone, PartialEq, Eq, Structural, PartialOrd, Ord, Hash)]
pub enum AbsoluteDirection {
    Normal,
    Spatial,
}

impl AbsoluteDirection {
    pub open spec fn points(&self) -> int {
        match *self {
            AbsoluteDirection::Normal => 5,
            AbsoluteDirection::Spatial => 10,
        }
    }

    pub fn cost(&self) -> (cost: i64)
        ensures
            cost == self.points(),
    {
        match self {
            Self::Normal => 5,
            Self::Spatial => 10,
        }
    }
}

impl Default for AbsoluteDirection {
    fn default() -> (grade: Self)
        ensures
            grade == AbsoluteDirection::Normal,
    {
        AbsoluteDirection::Normal
    }
}

/// How often luck comes to help.
#[derive(Debug, Copy, Clone, PartialEq, Eq, Structural, PartialOrd, Ord, Hash)]
pub enum Luck {
    Normal,
    Extraordinary,
    Ridiculous,
}

impl Luck {
    pub open spec fn points(&self) -> int {
        match *self {
            Luck::Normal => 15,
            Luck::Extraordinary => 30,
            Luck::Ridiculous => 60,
        }
    }

    pub fn cost(&self) -> (cost: i64)
        ensures
            cost == self.points(),
    {
        match self {
            Self::Normal => 15,
            Self::Extraordinary => 30,
            Self::Ridiculous => 60,
        }
    }
}

impl Default for Luck {
    fn default() -> (grade: Self)
        ensures
            grade == Luck::Normal,
    {
        Luck::Normal
    }
}

/// How supple the body is.
#[derive(Debug, Copy, Clone, PartialEq, Eq, Structural, PartialOrd, Ord, Hash)]
pub enum Flexible {
    Normal,
    DoubleJointed,
}

impl Flexible {
    pub open spec fn points(&self) -> int {
        match *self {
            Flexible::Normal => 5,
            Flexible::DoubleJointed => 15,
        }
    }

    pub fn cost(&self) -> (cost: i64)
        ensures
            cost == self.points(),
    {
        match self {
            Self::Normal => 5,
            Self::DoubleJointed => 15,
        }
    }
}

impl Default for Flexible {
    fn default() -> (grade: Self)
        ensures
            grade == Flexible::Normal,
    {
        Flexible::Normal
    }
}

/// How much a memory keeps.
#[derive(Debug, Copy, Clone, PartialEq, Eq, Structural, PartialOrd, Ord, Hash)]
pub enum EiditicMemory {
    Normal,
    Photographic,
}

impl EiditicMemory {
    pub open spec fn points(&self) -> int {
        match *self {
            EiditicMemory::Normal => 5,
            EiditicMemory::Photographic => 10,
        }
    }

    pub fn cost(&self) -> (cost: i64)
        ensures
            cost == self.points(),
    {
        match self {
            Self::Normal => 5,
            Self::Photographic => 10,
        }
    }
}

impl Default for EiditicMemory {
    fn default() -> (grade: Self)
        ensures
            grade == EiditicMemory::Normal,
    {
        EiditicMemory::Normal
    }
}

/// Small traits that colour a character. None of them has a price yet.
#[derive(Debug, Copy, Clone, PartialEq, Eq, Structural, PartialOrd, Ord, Hash)]
pub enum Perk {
    DeepSleeper,
    HonestFace,
}

impl Perk {
    pub open spec fn points(&self) -> int {
        0
    }

    pub fn cost(&self) -> (cost: i64)
        ensures
            cost == self.points(),
    {
        0
    }
}

/// The disadvantages a character can take. Their cost is negative: they give
/// points back.
#[derive(Debug, Copy, Clone, PartialEq, Eq, Structural, PartialOrd, Ord, Hash)]
pub enum Disadvantage {
    CodeOfHonor(usize),
    Destiny(usize),
    Duty(Duty),
    Honesty,
    Selfless,
    SenseOfDuty(SenseOfDuty),
    SocialStigma(usize),
    Status(usize),
    Stubborn,
}

impl Disadvantage {
    /// The character points that this disadvantage costs, never more than 0.
    /// A disadvantage that has no price yet counts as 0.
    pub open spec fn points(&self) -> int {
        match *self {
            Disadvantage::Destiny(level) => -(level as int),
            Disadvantage::Duty(grade) => grade.points(),
            Disadvantage::Selfless => -5,
            Disadvantage::SenseOfDuty(grade) => grade.points(),
            Disadvantage::SocialStigma(level) => -(level * 5),
            Disadvantage::Status(level) => -(level * 5),
            _ => 0,
        }
    }

    /// The point cost of this disadvantage. The level must be small enough
    /// for the cost to be an `i64`.
    pub fn cost(&self) -> (cost: i64)
        requires
            -self.points() <= i64::MAX,
        ensures
            cost == self.points(),
            cost <= 0,
    {
        match self {
            Self::Destiny(level) => -(*level as i64),
            Self::Duty(level) => level.cost(),
            Self::Selfless => -5,
            Self::SenseOfDuty(level) => level.cost(),
            // -5 points per level
            Self::SocialStigma(level) => -(*level as i64 * 5),
            Self::Status(level) => -(*level as i64 * 5),
            _ => 0,
        }
    }

    /// The price of each disadvantage, as a function.
    pub open spec fn price() -> spec_fn(Disadvantage) -> int {
        |disadvantage: Disadvantage| disadvantage.points()
    }

    /// The points that a list of disadvantages costs together: the sum of
    /// their costs, with nothing capped and nothing counted once only.
    pub open spec fn total_points(list: Seq<Disadvantage>) -> int {
        total(list, Self::price())
    }

    /// The point cost of a list of disadvantages. Each cost and their sum have
    /// to be an `i64`.
    pub fn total_cost(list: &Vec<Disadvantage>) -> (sum: i64)
        requires
            forall|i: int| 0 <= i < list@.len() ==> (#[trigger] list@[i]).points() >= -i64::MAX,
            i64::MIN <= Self::total_points(list@) <= i64::MAX,
        ensures
            sum == Self::total_points(list@),
    {
        let mut costs: Vec<i64> = Vec::new();
        let mut i: usize = 0;
        while i < list.len()
            invariant
                i <= list.len(),
                costs@.len() == i,
                forall|j: int| 0 <= j < list@.len() ==> (#[trigger] list@[j]).points() >= -i64::MAX,
                forall|j: int| 0 <= j < i ==> costs@[j] == (#[trigger] list@[j]).points(),
            decreases list.len() - i,
        {
            costs.push(list[i].cost());
            i += 1;
        }
        proof {
            lemma_total_of_costs(list@, Self::price(), costs@);
        }
        sum_costs(&costs)
    }
}

/// Whom a sense of duty binds the character to. The wider the circle, the
/// more points it gives back.
#[derive(Debug, Copy, Clone, PartialEq, Eq, Structural, PartialOrd, Ord, Hash)]
pub enum SenseOfDuty {
    Individual,
    SmallGroup,
    LargeGroup,
    EntireRace,
    EveryLivingBeing,
}

impl SenseOfDuty {
    pub open spec fn points(&self) -> int {
        match *self {
            SenseOfDuty::Individual => -2,
            SenseOfDuty::SmallGroup => -5,
            SenseOfDuty::LargeGroup => -10,
            SenseOfDuty::EntireRace => -15,
            SenseOfDuty::EveryLivingBeing => -20,
        }
    }

    pub fn cost(&self) -> (cost: i64)
        ensures
            cost == self.points(),
    {
        match self {
            Self::Individual => -2,
            Self::SmallGroup => -5,
            Self::LargeGroup => -10,
            Self::EntireRace => -15,
            Self::EveryLivingBeing => -20,
        }
    }
}

/// How often a duty calls.
#[derive(Debug, Copy, Clone, PartialEq, Eq, Structural, PartialOrd, Ord, Hash)]
pub enum Duty {
    AlmostAlways,
    QuiteOften,
    FairlyOften,
    QuiteRarely,
}

impl Duty {
    pub open spec fn points(&self) -> int {
        match *self {
            Duty::AlmostAlways => -15,
            Duty::QuiteOften => -10,
            Duty::FairlyOften => -5,
            Duty::QuiteRarely => -2,
        }
    }

    pub fn cost(&self) -> (cost: i64)
        ensures
            cost == self.points(),
    {
        match self {
            Self::AlmostAlways => -15,
            Self::QuiteOften => -10,
            Self::FairlyOften => -5,
            Self::QuiteRarely => -2,
        }
    }
}

/// The cost of a list of advantages does not depend on their order: a list
/// and any shuffling of it cost the same.
pub proof fn lemma_advantage_cost_is_order_independent(
    list: Seq<Advantage>,
    shuffled: Seq<Advantage>,
)
    requires
        list.to_multiset() == shuffled.to_multiset(),
    ensures
        Advantage::total_points(list) == Advantage::total_points(shuffled),
{
    lemma_total_is_order_independent(list, shuffled, Advantage::price());
}

/// The cost of a list of disadvantages does not depend on their order: a
/// list and any shuffling of it cost the same.
pub proof fn lemma_disadvantage_cost_is_order_independent(
    list: Seq<Disadvantage>,
    shuffled: Seq<Disadvantage>,
)
    requires
        list.to_multiset() == shuffled.to_multiset(),
    ensures
        Disadvantage::total_points(list) == Disadvantage::total_points(shuffled),
{
    lemma_total_is_order_independent(list, shuffled, Disadvantage::price());
}

} // verus!
