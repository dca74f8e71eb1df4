use vstd::prelude::*;

use crate::text::{decimal, decimal_string, lowercase, to_lowercase};

verus! {

/// The eight attributes of a character: four primary ones and the four that
/// are derived from them when the character is created.
#[derive(Debug, Copy, Clone, PartialEq, Eq, Structural, PartialOrd, Ord, Hash)]
pub enum AttributeType {
    Strength,
    Dexterity,
    Intelligence,
    Health,
    HitPoints,
    Willpower,
    Perception,
    Fatigue,
}

impl AttributeType {
    /// The attribute that a lower-case abbreviation stands for, if any.
    pub open spec fn abbreviated(lower: Seq<char>) -> Option<AttributeType> {
        if lower == "st"@ {
            Some(AttributeType::Strength)
        } else if lower == "dx"@ {
            Some(AttributeType::Dexterity)
        } else if lower == "iq"@ {
            Some(AttributeType::Intelligence)
        } else if lower == "ht"@ {
            Some(AttributeType::Health)
        } else if lower == "hp"@ {
            Some(AttributeType::HitPoints)
        } else if lower == "will"@ {
            Some(AttributeType::Willpower)
        } else if lower == "per"@ {
            Some(AttributeType::Perception)
        } else if lower == "fp"@ {
            Some(AttributeType::Fatigue)
        } else {
            None
        }
    }

    /// The name of the attribute as a character sheet prints it.
    pub open spec fn full_name(&self) -> Seq<char> {
        match *self {
            AttributeType::Strength => "Strength"@,
            AttributeType::Dexterity => "Dexterity"@,
            AttributeType::Intelligence => "Intelligence"@,
            AttributeType::Health => "Health"@,
            AttributeType::HitPoints => "Hit Points"@,
            AttributeType::Willpower => "Willpower"@,
            AttributeType::Perception => "Perception"@,
            AttributeType::Fatigue => "Fatigue"@,
        }
    }

    /// The attribute that `lower` abbreviates: one of st, dx, iq, ht, hp,
    /// will, per and fp, in lower case exactly.
    pub fn from_lower_abbr(lower: &str) -> (found: Option<Self>)
        ensures
            found == Self::abbreviated(lower@),
    {
        let lower = String::from_str(lower);
        if lower == String::from_str("st") {
            Some(Self::Strength)
        } else if lower == String::from_str("dx") {
            Some(Self::Dexterity)
        } else if lower == String::from_str("iq") {
            Some(Self::Intelligence)
        } else if lower == String::from_str("ht") {
            Some(Self::Health)
        } else if lower == String::from_str("hp") {
            Some(Self::HitPoints)
        } else if lower == String::from_str("will") {
            Some(Self::Willpower)
        } else if lower == String::from_str("per") {
            Some(Self::Perception)
        } else if lower == String::from_str("fp") {
            Some(Self::Fatigue)
        } else {
            None
        }
    }

    /// The attribute that `abbr` abbreviates, in whatever case it is
    /// written: the abbreviation is put in lower case and then looked up.
    pub fn from_abbr(abbr: &str) -> (found: Option<Self>)
        ensures
            found == Self::abbreviated(lowercase(abbr@)),
    {
        let lwr = to_lowercase(abbr);
        Self::from_lower_abbr(lwr.as_str())
    }
}

impl Default for AttributeType {
    fn default() -> (attribute: Self)
        ensures
            attribute == AttributeType::Strength,
    {
        AttributeType::Strength
    }
}

/// A snapshot of a character's attribute scores.
///
/// The scores are fixed when the value is built; nothing in this library
/// changes them afterwards.
#[derive(Debug, Copy, Clone, PartialEq, Eq, Structural, PartialOrd, Ord, Hash)]
pub struct Attributes {
    st: usize,
    dx: usize,
    iq: usize,
    ht: usize,
    hp: usize,
    will: usize,
    per: usize,
    fp: usize,
}

impl Attributes {
    /// The score held for `attribute`.
    pub closed spec fn spec_value(&self, attribute: &AttributeType) -> usize {
        match *attribute {
            AttributeType::Strength => self.st,
            AttributeType::Dexterity => self.dx,
            AttributeType::Intelligence => self.iq,
            AttributeType::Health => self.ht,
            AttributeType::HitPoints => self.hp,
            AttributeType::Willpower => self.will,
            AttributeType::Perception => self.per,
            AttributeType::Fatigue => self.fp,
        }
    }

    /// Builds the attributes of a new character from the four primary scores.
    /// Hit points start at Strength, Willpower and Perception at
    /// Intelligence, Fatigue at Health.
    pub fn from_base(st: usize, dx: usize, iq: usize, ht: usize) -> (attributes: Self)
        ensures
            attributes.value(&AttributeType::Strength) == st,
            attributes.value(&AttributeType::Dexterity) == dx,
            attributes.value(&AttributeType::Intelligence) == iq,
            attributes.value(&AttributeType::Health) == ht,
            attributes.value(&AttributeType::HitPoints) == st,
            attributes.value(&AttributeType::Willpower) == iq,
            attributes.value(&AttributeType::Perception) == iq,
            attributes.value(&AttributeType::Fatigue) == ht,
    {
        Attributes { st, dx, iq, ht, hp: st, will: iq, per: iq, fp: ht }
    }

    /// Builds the attributes from eight scores in the order Strength,
    /// Dexterity, Intelligence, Health, Hit Points, Willpower, Perception,
    /// Fatigue. Scores beyond the eighth are ignored.
    pub fn from_vec(vec: Vec<usize>) -> (attributes: Self)
        requires
            vec.len() >= 8,
        ensures
            attributes.value(&AttributeType::Strength) == vec[0],
            attributes.value(&AttributeType::Dexterity) == vec[1],
            attributes.value(&AttributeType::Intelligence) == vec[2],
            attributes.value(&AttributeType::Health) == vec[3],
            attributes.value(&AttributeType::HitPoints) == vec[4],
            attributes.value(&AttributeType::Willpower) == vec[5],
            attributes.value(&AttributeType::Perception) == vec[6],
            attributes.value(&AttributeType::Fatigue) == vec[7],
    {
        Self {
            st: vec[0],
            dx: vec[1],
            iq: vec[2],
            ht: vec[3],
            hp: vec[4],
            will: vec[5],
            per: vec[6],
            fp: vec[7],
        }
    }

    /// What the row of `attribute` shows in `column`: the attribute's name,
    /// or its score in decimal digits.
    pub open spec fn cell(&self, attribute: &AttributeType, column: &AttributeColumns) -> Seq<char> {
        match *column {
            AttributeColumns::Name => attribute.full_name(),
            AttributeColumns::Value => decimal(self.value(attribute) as nat),
        }
    }

    /// The name of `attribute` as a character sheet prints it.
    pub fn name(&self, attribute: &AttributeType) -> (name: String)
        ensures
            name@ == attribute.full_name(),
    {
        match *attribute {
            AttributeType::Strength => String::from_str("Strength"),
            AttributeType::Dexterity => String::from_str("Dexterity"),
            AttributeType::Intelligence => String::from_str("Intelligence"),
            AttributeType::Health => String::from_str("Health"),
            AttributeType::HitPoints => String::from_str("Hit Points"),
            AttributeType::Willpower => String::from_str("Willpower"),
            AttributeType::Perception => String::from_str("Perception"),
            AttributeType::Fatigue => String::from_str("Fatigue"),
        }
    }

    /// Generates the display value for a given column.
    pub fn column(&self, attribute: &AttributeType, column: &AttributeColumns) -> (text: String)
        ensures
            text@ == self.cell(attribute, column),
    {
        match *column {
            AttributeColumns::Name => self.name(attribute),
            AttributeColumns::Value => decimal_string(self.value(attribute)),
        }
    }

    /// The row of `attribute`: one text for each column, in the order of
    /// [`AttributeColumns::variants`].
    pub fn columns(&self, attribute: &AttributeType) -> (row: Vec<String>)
        ensures
            row@.len() == AttributeColumns::in_order().len(),
            forall|i: int|
                0 <= i < row@.len() ==> (#[trigger] row@[i])@ == self.cell(
                    attribute,
                    &AttributeColumns::in_order()[i],
                ),
    {
        let columns = AttributeColumns::variants();
        let mut row: Vec<String> = Vec::new();
        let mut i: usize = 0;
        while i < columns.len()
            invariant
                i <= columns.len(),
                columns@ == AttributeColumns::in_order(),
                row@.len() == i,
                forall|j: int|
                    0 <= j < i ==> (#[trigger] row@[j])@ == self.cell(attribute, &columns@[j]),
            decreases columns.len() - i,
        {
            row.push(self.column(attribute, &columns[i]));
            i += 1;
        }
        row
    }

    /// The score held for `attribute`.
    #[verifier::when_used_as_spec(spec_value)]
    pub fn value(&self, attribute: &AttributeType) -> (score: usize)
        ensures
            score == self.value(attribute),
    {
        match *attribute {
            AttributeType::Strength => self.st,
            AttributeType::Dexterity => self.dx,
            AttributeType::Intelligence => self.iq,
            AttributeType::Health => self.ht,
            AttributeType::HitPoints => self.hp,
            AttributeType::Willpower => self.will,
            AttributeType::Perception => self.per,
            AttributeType::Fatigue => self.fp,
        }
    }
}

impl Default for Attributes {
    fn default() -> (attributes: Self)
        ensures
            forall|attribute: AttributeType| #[trigger] attributes.value(&attribute) == 0,
    {
        Attributes { st: 0, dx: 0, iq: 0, ht: 0, hp: 0, will: 0, per: 0, fp: 0 }
    }
}

/// The columns of the table that shows a character's attributes.
#[derive(Debug, Copy, Clone, PartialEq, Eq, Structural, PartialOrd, Ord, Hash)]
pub enum AttributeColumns {
    Name,
    Value,
}

impl AttributeColumns {
    /// The columns from left to right.
    pub open spec fn in_order() -> Seq<AttributeColumns> {
        seq![AttributeColumns::Name, AttributeColumns::Value]
    }

    /// The heading of the column.
    pub open spec fn heading(&self) -> Seq<char> {
        match *self {
            AttributeColumns::Name => "Name"@,
            AttributeColumns::Value => "Value"@,
        }
    }

    /// The columns from left to right.
    pub fn variants() -> (columns: Vec<Self>)
        ensures
            columns@ == Self::in_order(),
    {
        let mut columns: Vec<Self> = Vec::new();
        columns.push(AttributeColumns::Name);
        columns.push(AttributeColumns::Value);
        assert(columns@ =~= Self::in_order());
        columns
    }

    /// The heading of the column.
    pub fn title(&self) -> (title: String)
        ensures
            title@ == self.heading(),
    {
        match *self {
            AttributeColumns::Name => String::from_str("Name"),
            AttributeColumns::Value => String::from_str("Value"),
        }
    }

    /// The headings of all columns, from left to right.
    pub fn names() -> (values: Vec<String>)
        ensures
            values@.len() == Self::in_order().len(),
            forall|i: int|
                0 <= i < values@.len() ==> (#[trigger] values@[i])@ == Self::in_order()[i].heading(),
    {
        let columns = Self::variants();
        let mut values: Vec<String> = Vec::new();
        let mut i: usize = 0;
        while i < columns.len()
            invariant
                i <= columns.len(),
                columns@ == Self::in_order(),
                values@.len() == i,
                forall|j: int| 0 <= j < i ==> (#[trigger] values@[j])@ == columns@[j].heading(),
            decreases columns.len() - i,
        {
            values.push(columns[i].title());
            i += 1;
        }
        values
    }
}

impl Default for AttributeColumns {
    fn default() -> (column: Self)
        ensures
            column == AttributeColumns::Value,
    {
        AttributeColumns::Value
    }
}

/// Attributes are no more than their eight scores: two that agree in every
/// score are the same.
pub proof fn lemma_attributes_are_their_scores(a: Attributes, b: Attributes)
    requires
        forall|attribute: AttributeType| #[trigger] a.value(&attribute) == b.value(&attribute),
    ensures
        a == b,
{
    assert(a.value(&AttributeType::Strength) == b.value(&AttributeType::Strength));
    assert(a.value(&AttributeType::Dexterity) == b.value(&AttributeType::Dexterity));
    assert(a.value(&AttributeType::Intelligence) == b.value(&AttributeType::Intelligence));
    assert(a.value(&AttributeType::Health) == b.value(&AttributeType::Health));
    assert(a.value(&AttributeType::HitPoints) == b.value(&AttributeType::HitPoints));
    assert(a.value(&AttributeType::Willpower) == b.value(&AttributeType::Willpower));
    assert(a.value(&AttributeType::Perception) == b.value(&AttributeType::Perception));
    assert(a.value(&AttributeType::Fatigue) == b.value(&AttributeType::Fatigue));
}

} // verus!
