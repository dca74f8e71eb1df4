use vstd::prelude::*;

use crate::advantages::{Advantage, Disadvantage, Perk};

verus! {

/// The traits of a character, each kind in the order in which it was
/// taken down. Nothing here checks that the traits go together.
#[derive(Debug, Clone, PartialEq, Eq, PartialOrd, Ord, Hash)]
pub struct SpecialFeatures {
    advantages: Vec<Advantage>,
    disadvantages: Vec<Disadvantage>,
    perks: Vec<Perk>,
}

impl SpecialFeatures {
    pub closed spec fn spec_advantages(&self) -> Seq<Advantage> {
        self.advantages@
    }

    pub closed spec fn spec_disadvantages(&self) -> Seq<Disadvantage> {
        self.disadvantages@
    }

    pub closed spec fn spec_perks(&self) -> Seq<Perk> {
        self.perks@
    }

    pub fn new(advantages: Vec<Advantage>, disadvantages: Vec<Disadvantage>, perks: Vec<Perk>) -> (features: Self)
        ensures
            features.spec_advantages() == advantages@,
            features.spec_disadvantages() == disadvantages@,
            features.spec_perks() == perks@,
    {
        SpecialFeatures { advantages, disadvantages, perks }
    }

    pub fn advantages(&self) -> (advantages: &Vec<Advantage>)
        ensures
            advantages@ == self.spec_advantages(),
    {
        &self.advantages
    }

    pub fn disadvantages(&self) -> (disadvantages: &Vec<Disadvantage>)
        ensures
            disadvantages@ == self.spec_disadvantages(),
    {
        &self.disadvantages
    }

    pub fn perks(&self) -> (perks: &Vec<Perk>)
        ensures
            perks@ == self.spec_perks(),
    {
        &self.perks
    }

    /// The point cost of the advantages. Each cost and their sum have to be
    /// an `i64`.
    pub fn advantages_cost(&self) -> (sum: i64)
        requires
            forall|i: int|
                0 <= i < self.spec_advantages().len() ==> (#[trigger] self.spec_advantages()[i]).points()
                    <= i64::MAX,
            i64::MIN <= Advantage::total_points(self.spec_advantages()) <= i64::MAX,
        ensures
            sum == Advantage::total_points(self.spec_advantages()),
    {
        Advantage::total_cost(&self.advantages)
    }

    /// The point cost of the disadvantages. Each cost and their sum have to
    /// be an `i64`.
    pub fn disadvantages_cost(&self) -> (sum: i64)
        requires
            forall|i: int|
                0 <= i < self.spec_disadvantages().len() ==> (
                #[trigger] self.spec_disadvantages()[i]).points() >= -i64::MAX,
            i64::MIN <= Disadvantage::total_points(self.spec_disadvantages()) <= i64::MAX,
        ensures
            sum == Disadvantage::total_points(self.spec_disadvantages()),
    {
        Disadvantage::total_cost(&self.disadvantages)
    }
}

impl Default for SpecialFeatures {
    fn default() -> (features: Self)
        ensures
            features.spec_advantages().len() == 0,
            features.spec_disadvantages().len() == 0,
            features.spec_perks().len() == 0,
    {
        SpecialFeatures { advantages: Vec::new(), disadvantages: Vec::new(), perks: Vec::new() }
    }
}

} // verus!
