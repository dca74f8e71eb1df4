use vstd::prelude::*;
use vstd::std_specs::convert::{FromSpec, FromSpecImpl};

use crate::attributes::{AttributeType, Attributes};

verus! {

/// A speed in yards a second, held exactly as whole yards and quarters of a
/// yard. Basic speed is a sum of two scores divided by four, so quarters are
/// all the fraction it can have.
#[derive(Debug, Copy, Clone, PartialEq, Eq, Structural, PartialOrd, Ord, Hash)]
pub struct Speed {
    whole: usize,
    quarters: u8,
}

impl Speed {
    #[verifier::type_invariant]
    spec fn fraction_is_proper(self) -> bool {
        self.quarters < 4
    }

    pub closed spec fn spec_whole(&self) -> usize {
        self.whole
    }

    pub closed spec fn spec_quarters(&self) -> u8 {
        self.quarters
    }

    /// The speed as a number of quarters.
    pub open spec fn in_quarters(&self) -> nat {
        (self.whole() * 4 + self.quarters()) as nat
    }

    /// The speed that is `total` quarters of a yard a second.
    pub fn from_quarters(total: usize) -> (speed: Self)
        ensures
            speed.in_quarters() == total,
            speed.quarters() < 4,
    {
        Speed { whole: total / 4, quarters: (total % 4) as u8 }
    }

    /// A quarter of the sum of two scores.
    pub fn quarter_of_sum(a: usize, b: usize) -> (speed: Self)
        ensures
            speed.in_quarters() == a + b,
            speed.quarters() < 4,
    {
        let carry: usize = a % 4 + b % 4;
        Speed { whole: a / 4 + b / 4 + carry / 4, quarters: (carry % 4) as u8 }
    }

    /// The speed with its fraction dropped.
    #[verifier::when_used_as_spec(spec_whole)]
    pub fn whole(&self) -> (whole: usize)
        ensures
            whole == self.whole(),
    {
        self.whole
    }

    /// The quarters beyond the whole yards: 0, 1, 2 or 3.
    #[verifier::when_used_as_spec(spec_quarters)]
    pub fn quarters(&self) -> (quarters: u8)
        ensures
            quarters == self.quarters(),
            quarters < 4,
    {
        proof {
            use_type_invariant(self);
        }
        self.quarters
    }
}

/// The basic lift of a character of strength `st`: a fifth of the square of
/// the strength, fractions dropped. A lift too large for a `usize` is held
/// at the largest `usize`.
pub open spec fn basic_lift_of(st: nat) -> nat {
    if st * st / 5 <= usize::MAX {
        st * st / 5
    } else {
        usize::MAX as nat
    }
}

/// The secondary characteristics that follow from a character's attributes.
#[derive(Debug, Copy, Clone, PartialEq, Eq, Structural, PartialOrd, Ord, Hash)]
pub struct Stats {
    /// The most that the character lifts overhead with one hand in a second.
    basic_lift: usize,
    /// Basic speed without its fraction.
    basic_move: usize,
    /// A quarter of Health and Dexterity together.
    basic_speed: Speed,
}

impl Stats {
    pub closed spec fn spec_basic_lift(&self) -> usize {
        self.basic_lift
    }

    pub closed spec fn spec_basic_move(&self) -> usize {
        self.basic_move
    }

    pub closed spec fn spec_basic_speed(&self) -> Speed {
        self.basic_speed
    }

    pub fn new(basic_lift: usize, basic_move: usize, basic_speed: Speed) -> (stats: Self)
        ensures
            stats.basic_lift() == basic_lift,
            stats.basic_move() == basic_move,
            stats.basic_speed() == basic_speed,
    {
        Stats { basic_lift, basic_move, basic_speed }
    }

    #[verifier::when_used_as_spec(spec_basic_lift)]
    pub fn basic_lift(&self) -> (basic_lift: usize)
        ensures
            basic_lift == self.basic_lift(),
    {
        self.basic_lift
    }

    #[verifier::when_used_as_spec(spec_basic_move)]
    pub fn basic_move(&self) -> (basic_move: usize)
        ensures
            basic_move == self.basic_move(),
    {
        self.basic_move
    }

    #[verifier::when_used_as_spec(spec_basic_speed)]
    pub fn basic_speed(&self) -> (basic_speed: Speed)
        ensures
            basic_speed == self.basic_speed(),
    {
        self.basic_speed
    }

    /// Whether these are the characteristics that follow from Strength `st`,
    /// Dexterity `dx` and Health `ht`.
    pub open spec fn follows_from(&self, st: nat, dx: nat, ht: nat) -> bool {
        &&& self.basic_lift() == basic_lift_of(st)
        &&& self.basic_speed().in_quarters() == ht + dx
        &&& self.basic_speed().quarters() < 4
        &&& self.basic_move() == (ht + dx) / 4
    }

    fn lift(st: usize) -> (lift: usize)
        ensures
            lift == basic_lift_of(st as nat),
    {
        assert(st * st <= u128::MAX) by (nonlinear_arith)
            requires
                st <= u64::MAX,
        ;
        let fifth: u128 = (st as u128) * (st as u128) / 5;
        if fifth <= usize::MAX as u128 {
            fifth as usize
        } else {
            usize::MAX
        }
    }
}

impl FromSpecImpl<Attributes> for Stats {
    open spec fn obeys_from_spec() -> bool {
        true
    }

    closed spec fn from_spec(attr: Attributes) -> Self {
        let st = attr.value(&AttributeType::Strength) as nat;
        let sum = attr.value(&AttributeType::Health) + attr.value(&AttributeType::Dexterity);
        Stats {
            basic_lift: basic_lift_of(st) as usize,
            basic_move: (sum / 4) as usize,
            basic_speed: Speed { whole: (sum / 4) as usize, quarters: (sum % 4) as u8 },
        }
    }
}

impl From<Attributes> for Stats {
    /// Derives the secondary characteristics from the attributes.
    fn from(attr: Attributes) -> (stats: Self)
        ensures
            stats.follows_from(
                attr.value(&AttributeType::Strength) as nat,
                attr.value(&AttributeType::Dexterity) as nat,
                attr.value(&AttributeType::Health) as nat,
            ),
    {
        let basic_lift = Self::lift(attr.value(&AttributeType::Strength));
        let basic_speed = Speed::quarter_of_sum(
            attr.value(&AttributeType::Health),
            attr.value(&AttributeType::Dexterity),
        );
        let basic_move = basic_speed.whole();
        Stats { basic_lift, basic_move, basic_speed }
    }
}

/// A speed is no more than its whole yards and its quarters: two that agree
/// in both are the same.
pub proof fn lemma_speed_is_its_parts(a: Speed, b: Speed)
    requires
        a.whole() == b.whole(),
        a.quarters() == b.quarters(),
    ensures
        a == b,
{
}

/// Stats are no more than the lift, the move and the speed: two that agree
/// in all three are the same.
pub proof fn lemma_stats_are_their_parts(a: Stats, b: Stats)
    requires
        a.basic_lift() == b.basic_lift(),
        a.basic_move() == b.basic_move(),
        a.basic_speed() == b.basic_speed(),
    ensures
        a == b,
{
}

/// What the conversion from attributes gives is what follows from their
/// Strength, Dexterity and Health.
pub proof fn lemma_stats_from_attributes(attr: Attributes)
    ensures
        <Stats as FromSpec<Attributes>>::from_spec(attr).follows_from(
            attr.value(&AttributeType::Strength) as nat,
            attr.value(&AttributeType::Dexterity) as nat,
            attr.value(&AttributeType::Health) as nat,
        ),
{
}

} // verus!
