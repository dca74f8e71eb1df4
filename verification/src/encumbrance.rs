use vstd::prelude::*;
use vstd::std_specs::convert::{FromSpec, FromSpecImpl};

use crate::stats::Stats;

verus! {

/// How heavily a character is loaded.
#[derive(Debug, Copy, Clone, PartialEq, Eq, Structural, PartialOrd, Ord, Hash)]
pub enum EncumbranceLevel {
    Unencumbered,
    Light,
    Medium,
    Heavy,
    XHeavy,
}

impl EncumbranceLevel {
    /// How many basic lifts a character can carry and still be at this level.
    pub open spec fn lifts(&self) -> nat {
        match *self {
            EncumbranceLevel::Unencumbered => 1,
            EncumbranceLevel::Light => 2,
            EncumbranceLevel::Medium => 3,
            EncumbranceLevel::Heavy => 6,
            EncumbranceLevel::XHeavy => 10,
        }
    }

    /// How many fifths of the basic move are left at this level.
    pub open spec fn fifths_of_move(&self) -> nat {
        match *self {
            EncumbranceLevel::Unencumbered => 5,
            EncumbranceLevel::Light => 4,
            EncumbranceLevel::Medium => 3,
            EncumbranceLevel::Heavy => 2,
            EncumbranceLevel::XHeavy => 1,
        }
    }

    /// What this level takes from the dodge.
    pub open spec fn dodge_penalty(&self) -> nat {
        match *self {
            EncumbranceLevel::Unencumbered => 0,
            EncumbranceLevel::Light => 1,
            EncumbranceLevel::Medium => 2,
            EncumbranceLevel::Heavy => 3,
            EncumbranceLevel::XHeavy => 4,
        }
    }
}

/// The heaviest load at each level of encumbrance.
#[derive(Debug, Copy, Clone, PartialEq, Eq, Structural, PartialOrd, Ord, Hash)]
pub struct EncumbranceWeight {
    none: usize,
    light: usize,
    medium: usize,
    heavy: usize,
    extra_heavy: usize,
}

impl EncumbranceWeight {
    pub closed spec fn spec_value(&self, level: &EncumbranceLevel) -> usize {
        match *level {
            EncumbranceLevel::Unencumbered => self.none,
            EncumbranceLevel::Light => self.light,
            EncumbranceLevel::Medium => self.medium,
            EncumbranceLevel::Heavy => self.heavy,
            EncumbranceLevel::XHeavy => self.extra_heavy,
        }
    }

    pub fn new(none: usize, light: usize, medium: usize, heavy: usize, extra_heavy: usize) -> (weight: Self)
        ensures
            weight.value(&EncumbranceLevel::Unencumbered) == none,
            weight.value(&EncumbranceLevel::Light) == light,
            weight.value(&EncumbranceLevel::Medium) == medium,
            weight.value(&EncumbranceLevel::Heavy) == heavy,
            weight.value(&EncumbranceLevel::XHeavy) == extra_heavy,
    {
        EncumbranceWeight { none, light, medium, heavy, extra_heavy }
    }

    /// The heaviest load at `level`.
    #[verifier::when_used_as_spec(spec_value)]
    pub fn value(&self, level: &EncumbranceLevel) -> (weight: usize)
        ensures
            weight == self.value(level),
    {
        match *level {
            EncumbranceLevel::Unencumbered => self.none,
            EncumbranceLevel::Light => self.light,
            EncumbranceLevel::Medium => self.medium,
            EncumbranceLevel::Heavy => self.heavy,
            EncumbranceLevel::XHeavy => self.extra_heavy,
        }
    }

    /// Whether each load is the basic lift times the lifts of its level.
    pub open spec fn scales(&self, basic_lift: nat) -> bool {
        forall|level: EncumbranceLevel| #[trigger] self.value(&level) == basic_lift * level.lifts()
    }

    /// The loads of a character with these characteristics: 1, 2, 3, 6 and
    /// 10 times the basic lift. The tenfold lift has to be a `usize`.
    pub fn from(stats: &Stats) -> (weight: Self)
        requires
            stats.basic_lift() * 10 <= usize::MAX,
        ensures
            weight.scales(stats.basic_lift() as nat),
    {
        let basic_lift = stats.basic_lift();
        let none = basic_lift;
        let light = basic_lift * 2;
        let medium = basic_lift * 3;
        let heavy = basic_lift * 6;
        let extra_heavy = basic_lift * 10;
        Self { none, light, medium, heavy, extra_heavy }
    }
}

/// The move that is left at each level of encumbrance.
#[derive(Debug, Copy, Clone, PartialEq, Eq, Structural, PartialOrd, Ord, Hash)]
pub struct EncumbranceMove {
    none: usize,
    light: usize,
    medium: usize,
    heavy: usize,
    extra_heavy: usize,
}

impl EncumbranceMove {
    pub closed spec fn spec_value(&self, level: &EncumbranceLevel) -> usize {
        match *level {
            EncumbranceLevel::Unencumbered => self.none,
            EncumbranceLevel::Light => self.light,
            EncumbranceLevel::Medium => self.medium,
            EncumbranceLevel::Heavy => self.heavy,
            EncumbranceLevel::XHeavy => self.extra_heavy,
        }
    }

    pub fn new(none: usize, light: usize, medium: usize, heavy: usize, extra_heavy: usize) -> (enc_move: Self)
        ensures
            enc_move.value(&EncumbranceLevel::Unencumbered) == none,
            enc_move.value(&EncumbranceLevel::Light) == light,
            enc_move.value(&EncumbranceLevel::Medium) == medium,
            enc_move.value(&EncumbranceLevel::Heavy) == heavy,
            enc_move.value(&EncumbranceLevel::XHeavy) == extra_heavy,
    {
        EncumbranceMove { none, light, medium, heavy, extra_heavy }
    }

    /// The move that is left at `level`.
    #[verifier::when_used_as_spec(spec_value)]
    pub fn value(&self, level: &EncumbranceLevel) -> (enc_move: usize)
        ensures
            enc_move == self.value(level),
    {
        match *level {
            EncumbranceLevel::Unencumbered => self.none,
            EncumbranceLevel::Light => self.light,
            EncumbranceLevel::Medium => self.medium,
            EncumbranceLevel::Heavy => self.heavy,
            EncumbranceLevel::XHeavy => self.extra_heavy,
        }
    }

    /// Whether each move is the basic move times the fraction of its level,
    /// fractions dropped.
    pub open spec fn scales(&self, basic_move: nat) -> bool {
        forall|level: EncumbranceLevel| #[trigger]
            self.value(&level) == basic_move * level.fifths_of_move() / 5
    }

    /// So many fifths of `basic_move`, fractions dropped.
    fn fifths(basic_move: usize, fifths: u8) -> (part: usize)
        requires
            fifths <= 5,
        ensures
            part == basic_move * fifths / 5,
    {
        assert(basic_move * fifths <= basic_move * 5) by (nonlinear_arith)
            requires
                fifths <= 5,
        ;
        ((basic_move as u128 * fifths as u128) / 5) as usize
    }
}

impl<'a> FromSpecImpl<&'a Stats> for EncumbranceMove {
    open spec fn obeys_from_spec() -> bool {
        true
    }

    closed spec fn from_spec(stats: &'a Stats) -> Self {
        let basic_move = stats.basic_move();
        EncumbranceMove {
            none: basic_move,
            light: (basic_move * 4 / 5) as usize,
            medium: (basic_move * 3 / 5) as usize,
            heavy: (basic_move * 2 / 5) as usize,
            extra_heavy: (basic_move / 5) as usize,
        }
    }
}

impl<'a> From<&'a Stats> for EncumbranceMove {
    /// The moves of a character with these characteristics: the whole basic
    /// move, then four, three, two fifths and one fifth of it.
    fn from(stats: &'a Stats) -> (enc_move: Self)
        ensures
            enc_move.scales(stats.basic_move() as nat),
    {
        let basic_move = stats.basic_move();
        let none = basic_move;
        let light = Self::fifths(basic_move, 4);
        let medium = Self::fifths(basic_move, 3);
        let heavy = Self::fifths(basic_move, 2);
        let extra_heavy = Self::fifths(basic_move, 1);
        Self { none, light, medium, heavy, extra_heavy }
    }
}

/// The dodge at each level of encumbrance. A dodge is a signed number: under
/// a basic speed of 1 the heaviest load leaves less than none.
#[derive(Debug, Copy, Clone, PartialEq, Eq, Structural, PartialOrd, Ord, Hash)]
pub struct EncumbranceDodge {
    none: i128,
    light: i128,
    medium: i128,
    heavy: i128,
    extra_heavy: i128,
}

impl EncumbranceDodge {
    pub closed spec fn spec_value(&self, level: &EncumbranceLevel) -> i128 {
        match *level {
            EncumbranceLevel::Unencumbered => self.none,
            EncumbranceLevel::Light => self.light,
            EncumbranceLevel::Medium => self.medium,
            EncumbranceLevel::Heavy => self.heavy,
            EncumbranceLevel::XHeavy => self.extra_heavy,
        }
    }

    pub fn new(none: i128, light: i128, medium: i128, heavy: i128, extra_heavy: i128) -> (dodge: Self)
        ensures
            dodge.value(&EncumbranceLevel::Unencumbered) == none,
            dodge.value(&EncumbranceLevel::Light) == light,
            dodge.value(&EncumbranceLevel::Medium) == medium,
            dodge.value(&EncumbranceLevel::Heavy) == heavy,
            dodge.value(&EncumbranceLevel::XHeavy) == extra_heavy,
    {
        EncumbranceDodge { none, light, medium, heavy, extra_heavy }
    }

    /// The dodge at `level`.
    #[verifier::when_used_as_spec(spec_value)]
    pub fn value(&self, level: &EncumbranceLevel) -> (dodge: i128)
        ensures
            dodge == self.value(level),
    {
        match *level {
            EncumbranceLevel::Unencumbered => self.none,
            EncumbranceLevel::Light => self.light,
            EncumbranceLevel::Medium => self.medium,
            EncumbranceLevel::Heavy => self.heavy,
            EncumbranceLevel::XHeavy => self.extra_heavy,
        }
    }

    /// Whether each dodge is the whole part of the speed and 3, less the
    /// penalty of its level.
    pub open spec fn falls_from(&self, whole_speed: nat) -> bool {
        forall|level: EncumbranceLevel| #[trigger]
            self.value(&level) == whole_speed + 3 - level.dodge_penalty()
    }
}

impl<'a> FromSpecImpl<&'a Stats> for EncumbranceDodge {
    open spec fn obeys_from_spec() -> bool {
        true
    }

    closed spec fn from_spec(stats: &'a Stats) -> Self {
        let dodge = stats.basic_speed().whole() + 3;
        EncumbranceDodge {
            none: dodge as i128,
            light: (dodge - 1) as i128,
            medium: (dodge - 2) as i128,
            heavy: (dodge - 3) as i128,
            extra_heavy: (dodge - 4) as i128,
        }
    }
}

impl<'a> From<&'a Stats> for EncumbranceDodge {
    /// The dodges of a character with these characteristics: basic speed
    /// without its fraction and 3, less one for each level of load.
    ///
    /// Nothing is clamped. The ruleset gives every character a basic speed
    /// of at least 1, and it is for the caller to see to that: under it the
    /// dodge at the heaviest load is 3 less 4, a negative number.
    fn from(stats: &'a Stats) -> (dodge: Self)
        ensures
            dodge.falls_from(stats.basic_speed().whole() as nat),
    {
        let dodge: i128 = stats.basic_speed().whole() as i128 + 3;
        let none = dodge;
        let light = dodge - 1;
        let medium = dodge - 2;
        let heavy = dodge - 3;
        let extra_heavy = dodge - 4;
        Self { none, light, medium, heavy, extra_heavy }
    }
}

/// What a load does to a character: the loads that bound the five levels,
/// and the move and the dodge that are left at each.
#[derive(Debug, Copy, Clone, PartialEq, Eq, Structural, PartialOrd, Ord, Hash)]
pub struct Encumbrance {
    weight: EncumbranceWeight,
    enc_move: EncumbranceMove,
    dodge: EncumbranceDodge,
}

impl Encumbrance {
    pub closed spec fn spec_weight(&self) -> EncumbranceWeight {
        self.weight
    }

    pub closed spec fn spec_enc_move(&self) -> EncumbranceMove {
        self.enc_move
    }

    pub closed spec fn spec_dodge(&self) -> EncumbranceDodge {
        self.dodge
    }

    pub fn new(weight: EncumbranceWeight, enc_move: EncumbranceMove, dodge: EncumbranceDodge) -> (encumbrance: Self)
        ensures
            encumbrance.weight() == weight,
            encumbrance.enc_move() == enc_move,
            encumbrance.dodge() == dodge,
    {
        Encumbrance { weight, enc_move, dodge }
    }

    #[verifier::when_used_as_spec(spec_weight)]
    pub fn weight(&self) -> (weight: EncumbranceWeight)
        ensures
            weight == self.weight(),
    {
        self.weight
    }

    #[verifier::when_used_as_spec(spec_enc_move)]
    pub fn enc_move(&self) -> (enc_move: EncumbranceMove)
        ensures
            enc_move == self.enc_move(),
    {
        self.enc_move
    }

    #[verifier::when_used_as_spec(spec_dodge)]
    pub fn dodge(&self) -> (dodge: EncumbranceDodge)
        ensures
            dodge == self.dodge(),
    {
        self.dodge
    }

    /// Whether the three tables are those of a character with basic lift
    /// `basic_lift`, basic move `basic_move` and a basic speed of
    /// `whole_speed` without its fraction.
    pub open spec fn follows_from(&self, basic_lift: nat, basic_move: nat, whole_speed: nat) -> bool {
        &&& self.weight().scales(basic_lift)
        &&& self.enc_move().scales(basic_move)
        &&& self.dodge().falls_from(whole_speed)
    }

    /// The three tables of a character with these characteristics. The
    /// tenfold lift has to be a `usize`, as for [`EncumbranceWeight::from`].
    pub fn from(stats: &Stats) -> (encumbrance: Self)
        requires
            stats.basic_lift() * 10 <= usize::MAX,
        ensures
            encumbrance.follows_from(
                stats.basic_lift() as nat,
                stats.basic_move() as nat,
                stats.basic_speed().whole() as nat,
            ),
    {
        let weight = EncumbranceWeight::from(stats);
        let enc_move = EncumbranceMove::from(stats);
        let dodge = EncumbranceDodge::from(stats);
        Self { weight, enc_move, dodge }
    }
}

/// A table of loads is no more than its five loads: two that agree at every
/// level are the same.
pub proof fn lemma_loads_are_their_levels(a: EncumbranceWeight, b: EncumbranceWeight)
    requires
        forall|level: EncumbranceLevel| #[trigger] a.value(&level) == b.value(&level),
    ensures
        a == b,
{
    assert(a.value(&EncumbranceLevel::Unencumbered) == b.value(&EncumbranceLevel::Unencumbered));
    assert(a.value(&EncumbranceLevel::Light) == b.value(&EncumbranceLevel::Light));
    assert(a.value(&EncumbranceLevel::Medium) == b.value(&EncumbranceLevel::Medium));
    assert(a.value(&EncumbranceLevel::Heavy) == b.value(&EncumbranceLevel::Heavy));
    assert(a.value(&EncumbranceLevel::XHeavy) == b.value(&EncumbranceLevel::XHeavy));
}

/// A table of moves is no more than its five moves: two that agree at every
/// level are the same.
pub proof fn lemma_moves_are_their_levels(a: EncumbranceMove, b: EncumbranceMove)
    requires
        forall|level: EncumbranceLevel| #[trigger] a.value(&level) == b.value(&level),
    ensures
        a == b,
{
    assert(a.value(&EncumbranceLevel::Unencumbered) == b.value(&EncumbranceLevel::Unencumbered));
    assert(a.value(&EncumbranceLevel::Light) == b.value(&EncumbranceLevel::Light));
    assert(a.value(&EncumbranceLevel::Medium) == b.value(&EncumbranceLevel::Medium));
    assert(a.value(&EncumbranceLevel::Heavy) == b.value(&EncumbranceLevel::Heavy));
    assert(a.value(&EncumbranceLevel::XHeavy) == b.value(&EncumbranceLevel::XHeavy));
}

/// A table of dodges is no more than its five dodges: two that agree at every
/// level are the same.
pub proof fn lemma_dodges_are_their_levels(a: EncumbranceDodge, b: EncumbranceDodge)
    requires
        forall|level: EncumbranceLevel| #[trigger] a.value(&level) == b.value(&level),
    ensures
        a == b,
{
    assert(a.value(&EncumbranceLevel::Unencumbered) == b.value(&EncumbranceLevel::Unencumbered));
    assert(a.value(&EncumbranceLevel::Light) == b.value(&EncumbranceLevel::Light));
    assert(a.value(&EncumbranceLevel::Medium) == b.value(&EncumbranceLevel::Medium));
    assert(a.value(&EncumbranceLevel::Heavy) == b.value(&EncumbranceLevel::Heavy));
    assert(a.value(&EncumbranceLevel::XHeavy) == b.value(&EncumbranceLevel::XHeavy));
}

/// An encumbrance is no more than its three tables: two that agree in all
/// three are the same.
pub proof fn lemma_encumbrance_is_its_tables(a: Encumbrance, b: Encumbrance)
    requires
        a.weight() == b.weight(),
        a.enc_move() == b.enc_move(),
        a.dodge() == b.dodge(),
    ensures
        a == b,
{
}

/// What the conversion from stats gives is the table of moves for their
/// basic move.
pub proof fn lemma_moves_from_stats(stats: &Stats)
    ensures
        <EncumbranceMove as FromSpec<&Stats>>::from_spec(stats).scales(stats.basic_move() as nat),
{
}

/// What the conversion from stats gives is the table of dodges for their
/// basic speed.
pub proof fn lemma_dodges_from_stats(stats: &Stats)
    ensures
        <EncumbranceDodge as FromSpec<&Stats>>::from_spec(stats).falls_from(
            stats.basic_speed().whole() as nat,
        ),
{
}

} // verus!
