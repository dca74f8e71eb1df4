use vstd::prelude::*;
use vstd::std_specs::convert::{FromSpec, FromSpecImpl};

use crate::attributes::{AttributeType, Attributes};

verus! {

/// A dice expression: roll `dice` six-sided dice and add `pips`.
#[derive(Debug, Copy, Clone, PartialEq, Eq, Structural, PartialOrd, Ord, Hash)]
pub struct DieLevel {
    dice: i64,
    pips: i64,
}

impl DieLevel {
    pub closed spec fn spec_dice(&self) -> i64 {
        self.dice
    }

    pub closed spec fn spec_pips(&self) -> i64 {
        self.pips
    }

    pub fn new(dice: i64, pips: i64) -> (level: Self)
        ensures
            level.dice() == dice,
            level.pips() == pips,
    {
        DieLevel { dice, pips }
    }

    /// The number of dice rolled.
    #[verifier::when_used_as_spec(spec_dice)]
    pub fn dice(&self) -> (dice: i64)
        ensures
            dice == self.dice(),
    {
        self.dice
    }

    /// What is added to the sum of the dice.
    #[verifier::when_used_as_spec(spec_pips)]
    pub fn pips(&self) -> (pips: i64)
        ensures
            pips == self.pips(),
    {
        self.pips
    }

    /// Whether this expression rolls `pair.0` dice and adds `pair.1`.
    pub open spec fn rolls(&self, pair: (int, int)) -> bool {
        self.dice() == pair.0 && self.pips() == pair.1
    }
}

impl Default for DieLevel {
    fn default() -> (level: Self)
        ensures
            level.dice() == 0,
            level.pips() == 0,
    {
        DieLevel { dice: 0, pips: 0 }
    }
}

/// The damage of a blow, by the way the weapon is moved.
#[derive(Debug, Copy, Clone, PartialEq, Eq, Structural, PartialOrd, Ord, Hash)]
pub enum DamageKind {
    Thrust(DieLevel),
    Swing(DieLevel),
}

impl DamageKind {
    /// The dice expression, whichever kind of blow it belongs to.
    pub open spec fn spec_level(&self) -> DieLevel {
        match *self {
            DamageKind::Thrust(level) => level,
            DamageKind::Swing(level) => level,
        }
    }

    /// The dice expression, whichever kind of blow it belongs to.
    #[verifier::when_used_as_spec(spec_level)]
    pub fn level(&self) -> (level: DieLevel)
        ensures
            level == self.level(),
    {
        match *self {
            DamageKind::Thrust(level) => level,
            DamageKind::Swing(level) => level,
        }
    }
}

/// What a character brings to a fight: the damage of the two kinds of blow,
/// the damage resistance and the two active defences.
#[derive(Debug, Copy, Clone, PartialEq, Eq, Structural, PartialOrd, Ord, Hash)]
pub struct CombatStats {
    pub damage_thrust: DamageKind,
    pub damage_swing: DamageKind,
    pub dr: usize,
    pub parry: usize,
    pub block: usize,
}

/// The basic striking damage of a character, before any weapon is counted.
#[derive(Debug, Copy, Clone, PartialEq, Eq, Structural, PartialOrd, Ord, Hash)]
pub struct BaseDamage {
    thrust: DamageKind,
    swing: DamageKind,
}

/// Dice and pips of a thrust at strength `st`, as the ruleset's damage table
/// lists them up to 100. Above 100 the table goes on by one die for each
/// point, starting again at eleven dice every ten points.
pub open spec fn thrust_table(st: nat) -> (int, int) {
    if st <= 0 {
        (0, 0)
    } else if st <= 2 {
        (1, -6)
    } else if st <= 4 {
        (1, -5)
    } else if st <= 6 {
        (1, -4)
    } else if st <= 8 {
        (1, -3)
    } else if st <= 10 {
        (1, -2)
    } else if st <= 12 {
        (1, -1)
    } else if st <= 14 {
        (1, 0)
    } else if st <= 16 {
        (1, 1)
    } else if st <= 18 {
        (1, 2)
    } else if st <= 20 {
        (2, -1)
    } else if st <= 22 {
        (2, 0)
    } else if st <= 24 {
        (2, 1)
    } else if st <= 26 {
        (2, 2)
    } else if st <= 28 {
        (3, -1)
    } else if st <= 30 {
        (3, 0)
    } else if st <= 32 {
        (3, 1)
    } else if st <= 34 {
        (3, 2)
    } else if st <= 36 {
        (4, -1)
    } else if st <= 38 {
        (4, 0)
    } else if st <= 44 {
        (4, 1)
    } else if st <= 49 {
        (5, 0)
    } else if st <= 54 {
        (5, 2)
    } else if st <= 59 {
        (6, 0)
    } else if st <= 64 {
        (7, -1)
    } else if st <= 69 {
        (7, 1)
    } else if st <= 74 {
        (8, 0)
    } else if st <= 79 {
        (8, 2)
    } else if st <= 84 {
        (9, 0)
    } else if st <= 89 {
        (9, 2)
    } else if st <= 94 {
        (10, 0)
    } else if st <= 99 {
        (10, 2)
    } else if st <= 100 {
        (11, 0)
    } else {
        (11 + (st - 100) % 10, 0)
    }
}

/// Dice and pips of a swing at strength `st`, as the ruleset's damage table
/// lists them up to 100. Above 100 the table goes on by one die for each
/// point, starting again at thirteen dice every ten points.
pub open spec fn swing_table(st: nat) -> (int, int) {
    if st <= 0 {
        (0, 1)
    } else if st <= 2 {
        (1, -5)
    } else if st <= 4 {
        (1, -4)
    } else if st <= 6 {
        (1, -3)
    } else if st <= 8 {
        (1, -2)
    } else if st <= 9 {
        (1, -1)
    } else if st <= 10 {
        (1, 0)
    } else if st <= 11 {
        (1, 1)
    } else if st <= 12 {
        (1, 2)
    } else if st <= 13 {
        (2, -1)
    } else if st <= 14 {
        (2, 0)
    } else if st <= 15 {
        (2, 1)
    } else if st <= 16 {
        (2, 2)
    } else if st <= 17 {
        (3, -1)
    } else if st <= 18 {
        (3, 0)
    } else if st <= 19 {
        (3, 1)
    } else if st <= 20 {
        (3, 2)
    } else if st <= 21 {
        (4, -1)
    } else if st <= 22 {
        (4, 0)
    } else if st <= 23 {
        (4, 1)
    } else if st <= 24 {
        (4, 2)
    } else if st <= 25 {
        (5, -1)
    } else if st <= 26 {
        (5, 0)
    } else if st <= 28 {
        (5, 1)
    } else if st <= 30 {
        (5, 2)
    } else if st <= 32 {
        (6, -1)
    } else if st <= 34 {
        (6, 0)
    } else if st <= 36 {
        (6, 1)
    } else if st <= 38 {
        (6, 2)
    } else if st <= 44 {
        (7, -1)
    } else if st <= 49 {
        (7, 1)
    } else if st <= 54 {
        (8, -1)
    } else if st <= 59 {
        (8, 1)
    } else if st <= 64 {
        (9, 0)
    } else if st <= 69 {
        (9, 2)
    } else if st <= 74 {
        (10, 0)
    } else if st <= 79 {
        (10, 2)
    } else if st <= 84 {
        (11, 0)
    } else if st <= 89 {
        (11, 2)
    } else if st <= 94 {
        (12, 0)
    } else if st <= 99 {
        (12, 2)
    } else if st <= 100 {
        (13, 0)
    } else {
        (13 + (st - 100) % 10, 0)
    }
}

impl BaseDamage {
    pub closed spec fn spec_thrust(&self) -> DamageKind {
        self.thrust
    }

    pub closed spec fn spec_swing(&self) -> DamageKind {
        self.swing
    }

    pub fn new(thrust: DamageKind, swing: DamageKind) -> (damage: Self)
        ensures
            damage.thrust() == thrust,
            damage.swing() == swing,
    {
        BaseDamage { thrust, swing }
    }

    /// The damage of a thrusting blow.
    #[verifier::when_used_as_spec(spec_thrust)]
    pub fn thrust(&self) -> (thrust: DamageKind)
        ensures
            thrust == self.thrust(),
    {
        self.thrust
    }

    /// The damage of a swung blow.
    #[verifier::when_used_as_spec(spec_swing)]
    pub fn swing(&self) -> (swing: DamageKind)
        ensures
            swing == self.swing(),
    {
        self.swing
    }

    /// Whether this is the basic damage that the table gives for strength `st`.
    pub open spec fn is_for_strength(&self, st: nat) -> bool {
        &&& self.thrust() is Thrust
        &&& self.thrust().level().rolls(thrust_table(st))
        &&& self.swing() is Swing
        &&& self.swing().level().rolls(swing_table(st))
    }

    /// The thrust and swing dice of the table's row for `st`.
    fn table_row(st: usize) -> (row: (DieLevel, DieLevel))
        ensures
            row.0.rolls(thrust_table(st as nat)),
            row.1.rolls(swing_table(st as nat)),
    {
        match st {
            0 => (DieLevel::new(0, 0), DieLevel::new(0, 1)),
            1 => (DieLevel::new(1, -6), DieLevel::new(1, -5)),
            2 => (DieLevel::new(1, -6), DieLevel::new(1, -5)),
            3 => (DieLevel::new(1, -5), DieLevel::new(1, -4)),
            4 => (DieLevel::new(1, -5), DieLevel::new(1, -4)),
            5 => (DieLevel::new(1, -4), DieLevel::new(1, -3)),
            6 => (DieLevel::new(1, -4), DieLevel::new(1, -3)),
            7 => (DieLevel::new(1, -3), DieLevel::new(1, -2)),
            8 => (DieLevel::new(1, -3), DieLevel::new(1, -2)),
            9 => (DieLevel::new(1, -2), DieLevel::new(1, -1)),
            10 => (DieLevel::new(1, -2), DieLevel::new(1, 0)),
            11 => (DieLevel::new(1, -1), DieLevel::new(1, 1)),
            12 => (DieLevel::new(1, -1), DieLevel::new(1, 2)),
            13 => (DieLevel::new(1, 0), DieLevel::new(2, -1)),
            14 => (DieLevel::new(1, 0), DieLevel::new(2, 0)),
            15 => (DieLevel::new(1, 1), DieLevel::new(2, 1)),
            16 => (DieLevel::new(1, 1), DieLevel::new(2, 2)),
            17 => (DieLevel::new(1, 2), DieLevel::new(3, -1)),
            18 => (DieLevel::new(1, 2), DieLevel::new(3, 0)),
            19 => (DieLevel::new(2, -1), DieLevel::new(3, 1)),
            20 => (DieLevel::new(2, -1), DieLevel::new(3, 2)),
            21 => (DieLevel::new(2, 0), DieLevel::new(4, -1)),
            22 => (DieLevel::new(2, 0), DieLevel::new(4, 0)),
            23 => (DieLevel::new(2, 1), DieLevel::new(4, 1)),
            24 => (DieLevel::new(2, 1), DieLevel::new(4, 2)),
            25 => (DieLevel::new(2, 2), DieLevel::new(5, -1)),
            26 => (DieLevel::new(2, 2), DieLevel::new(5, 0)),
            27 => (DieLevel::new(3, -1), DieLevel::new(5, 1)),
            28 => (DieLevel::new(3, -1), DieLevel::new(5, 1)),
            29 => (DieLevel::new(3, 0), DieLevel::new(5, 2)),
            30 => (DieLevel::new(3, 0), DieLevel::new(5, 2)),
            31 => (DieLevel::new(3, 1), DieLevel::new(6, -1)),
            32 => (DieLevel::new(3, 1), DieLevel::new(6, -1)),
            33 => (DieLevel::new(3, 2), DieLevel::new(6, 0)),
            34 => (DieLevel::new(3, 2), DieLevel::new(6, 0)),
            35 => (DieLevel::new(4, -1), DieLevel::new(6, 1)),
            36 => (DieLevel::new(4, -1), DieLevel::new(6, 1)),
            37 => (DieLevel::new(4, 0), DieLevel::new(6, 2)),
            38 => (DieLevel::new(4, 0), DieLevel::new(6, 2)),
            39 => (DieLevel::new(4, 1), DieLevel::new(7, -1)),
            40..45 => (DieLevel::new(4, 1), DieLevel::new(7, -1)),
            45..50 => (DieLevel::new(5, 0), DieLevel::new(7, 1)),
            50..55 => (DieLevel::new(5, 2), DieLevel::new(8, -1)),
            55..60 => (DieLevel::new(6, 0), DieLevel::new(8, 1)),
            60..65 => (DieLevel::new(7, -1), DieLevel::new(9, 0)),
            65..70 => (DieLevel::new(7, 1), DieLevel::new(9, 2)),
            70..75 => (DieLevel::new(8, 0), DieLevel::new(10, 0)),
            75..80 => (DieLevel::new(8, 2), DieLevel::new(10, 2)),
            80..85 => (DieLevel::new(9, 0), DieLevel::new(11, 0)),
            85..90 => (DieLevel::new(9, 2), DieLevel::new(11, 2)),
            90..95 => (DieLevel::new(10, 0), DieLevel::new(12, 0)),
            95..100 => (DieLevel::new(10, 2), DieLevel::new(12, 2)),
            100 => (DieLevel::new(11, 0), DieLevel::new(13, 0)),
            above => {
                let buff: usize = (above - 100) % 10;
                (DieLevel::new(11 + buff as i64, 0), DieLevel::new(13 + buff as i64, 0))
            },
        }
    }
}

impl FromSpecImpl<Attributes> for BaseDamage {
    open spec fn obeys_from_spec() -> bool {
        true
    }

    closed spec fn from_spec(value: Attributes) -> Self {
        let st = value.value(&AttributeType::Strength) as nat;
        BaseDamage {
            thrust: DamageKind::Thrust(
                DieLevel { dice: thrust_table(st).0 as i64, pips: thrust_table(st).1 as i64 },
            ),
            swing: DamageKind::Swing(
                DieLevel { dice: swing_table(st).0 as i64, pips: swing_table(st).1 as i64 },
            ),
        }
    }
}

impl From<Attributes> for BaseDamage {
    /// Looks the character's Strength up in the damage table.
    fn from(value: Attributes) -> (damage: Self)
        ensures
            damage.is_for_strength(value.value(&AttributeType::Strength) as nat),
            value.value(&AttributeType::Strength) > 100 ==> {
                let over = (value.value(&AttributeType::Strength) - 100) % 10;
                &&& damage.thrust().level().rolls((11 + over, 0))
                &&& damage.swing().level().rolls((13 + over, 0))
            },
    {
        let (thrust, swing) = Self::table_row(value.value(&AttributeType::Strength));
        BaseDamage { thrust: DamageKind::Thrust(thrust), swing: DamageKind::Swing(swing) }
    }
}

/// A dice expression is no more than its dice and its pips: two that agree
/// in both are the same.
pub proof fn lemma_die_level_is_its_parts(a: DieLevel, b: DieLevel)
    requires
        a.dice() == b.dice(),
        a.pips() == b.pips(),
    ensures
        a == b,
{
}

/// A basic damage is no more than its two blows: two that agree in both are
/// the same.
pub proof fn lemma_damage_is_its_blows(a: BaseDamage, b: BaseDamage)
    requires
        a.thrust() == b.thrust(),
        a.swing() == b.swing(),
    ensures
        a == b,
{
}

/// What the conversion from attributes gives is the damage of the table for
/// their Strength.
pub proof fn lemma_damage_from_attributes(value: Attributes)
    ensures
        <BaseDamage as FromSpec<Attributes>>::from_spec(value).is_for_strength(
            value.value(&AttributeType::Strength) as nat,
        ),
{
}

} // verus!
