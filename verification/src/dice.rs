use vstd::prelude::*;

verus! {

/// The standard generator of rand. Nothing is known of its state.
#[verifier::external_type_specification]
#[verifier::external_body]
pub struct ExStdRng(rand::rngs::StdRng);

/// The handle of rand to the generator of the running thread.
#[verifier::external_type_specification]
#[verifier::external_body]
pub struct ExThreadRng(rand::rngs::ThreadRng);

/// The sampler of rand for a range of `usize`: what `Uniform<usize>` holds.
/// Its range is known only through [`faces`].
#[verifier::external_type_specification]
#[verifier::external_body]
pub struct ExUniformUsize(rand::distr::uniform::UniformUsize);

/// The error of rand for a range that cannot be sampled.
#[verifier::external_type_specification]
#[verifier::external_body]
pub struct ExUniformError(rand::distr::uniform::Error);

/// The numbers that a sampler was made to yield: the range that it was
/// built with.
pub uninterp spec fn faces(die: rand::distr::uniform::UniformUsize) -> Set<int>;

/// The faces of a six-sided die.
pub open spec fn six_sided() -> Set<int> {
    Set::new(|face: int| 1 <= face < 7)
}

/// `SeedableRng::seed_from_u64` of rand, for its standard generator: a
/// generator whose stream follows from `seed`. Nothing is claimed of the
/// numbers that it will give.
#[verifier::external_body]
fn seeded(seed: u64) -> (range: rand::rngs::StdRng) {
    rand::SeedableRng::seed_from_u64(seed)
}

/// `rand::rng` of rand: a handle to the generator of the running thread,
/// which the operating system seeds.
#[verifier::external_body]
fn thread_generator() -> (source: rand::rngs::ThreadRng) {
    rand::rng()
}

/// `SeedableRng::from_rng` of rand, for its standard generator: a generator
/// seeded with what `source` gives next. Nothing is claimed of the numbers
/// that it will give.
#[verifier::external_body]
fn seeded_from(source: &mut rand::rngs::ThreadRng) -> (range: rand::rngs::StdRng) {
    rand::SeedableRng::from_rng(source)
}

/// `UniformSampler::new` of rand, for `usize`: the sampler that
/// `Uniform::new` wraps. It fails exactly when there is no number from `low`
/// up to but without `high`; otherwise the sampler yields those numbers and
/// no others.
#[verifier::external_body]
fn uniform(low: usize, high: usize) -> (die: Result<
    rand::distr::uniform::UniformUsize,
    rand::distr::uniform::Error,
>)
    ensures
        die is Ok <==> low < high,
        die matches Ok(sampler) ==> faces(sampler) == Set::new(|face: int| low <= face < high),
{
    rand::distr::uniform::UniformSampler::new(low, high)
}

/// `UniformSampler::sample` of rand, for `usize`: one of the numbers that
/// the sampler yields. Which one depends on the state of the generator,
/// which the call advances.
#[verifier::external_body]
fn sample(die: &rand::distr::uniform::UniformUsize, range: &mut rand::rngs::StdRng) -> (face: usize)
    ensures
        faces(*die).contains(face as int),
{
    rand::distr::uniform::UniformSampler::sample(die, range)
}

/// `Clone::clone` as rand derives it for its standard generator: a generator
/// in the same state.
pub assume_specification[ <rand::rngs::StdRng as Clone>::clone ](
    range: &rand::rngs::StdRng,
) -> (copy: rand::rngs::StdRng)
    ensures
        copy == *range,
;

/// A six-sided die: a sampler that yields the numbers 1 to 6.
#[derive(Debug, PartialEq, Eq)]
struct Die {
    sampler: rand::distr::uniform::UniformUsize,
}

impl Die {
    #[verifier::type_invariant]
    spec fn has_six_faces(self) -> bool {
        faces(self.sampler) == six_sided()
    }

    fn new() -> (die: Result<Self, rand::distr::uniform::Error>)
        ensures
            die is Ok,
    {
        let sampler = uniform(1, 7)?;
        Ok(Die { sampler })
    }

    fn cast(&self, range: &mut rand::rngs::StdRng) -> (face: usize)
        ensures
            1 <= face <= 6,
    {
        proof {
            use_type_invariant(self);
        }
        sample(&self.sampler, range)
    }
}

impl Clone for Die {
    fn clone(&self) -> (copy: Self) {
        proof {
            use_type_invariant(self);
        }
        Die { sampler: self.sampler }
    }
}

/// A source of rolls of a six-sided die.
#[derive(Debug, Clone, PartialEq, Eq)]
pub struct Random {
    range: rand::rngs::StdRng,
    die: Die,
}

impl Random {
    /// A source seeded with `seed`. It never fails: the die always has
    /// faces.
    pub fn from_seed(seed: u64) -> (random: Result<Self, rand::distr::uniform::Error>)
        ensures
            random is Ok,
    {
        let range = seeded(seed);
        let die = Die::new()?;
        Ok(Self { range, die })
    }

    /// Rolls one die.
    pub fn roll_die(&mut self) -> (face: usize)
        ensures
            1 <= face <= 6,
    {
        self.die.cast(&mut self.range)
    }

    /// Rolls three dice and adds them up.
    pub fn roll(&mut self) -> (total: usize)
        ensures
            3 <= total <= 18,
    {
        let mut total: usize = 0;
        let mut rolled: usize = 0;
        while rolled < 3
            invariant
                rolled <= 3,
                rolled <= total <= 6 * rolled,
            decreases 3 - rolled,
        {
            let face = self.roll_die();
            total = total + face;
            rolled += 1;
        }
        total
    }
}

impl Default for Random {
    /// A source that the operating system seeds.
    ///
    /// # Panics
    ///
    /// Panics where the operating system has no entropy to give.
    fn default() -> (random: Self) {
        let mut rng = thread_generator();
        let range = seeded_from(&mut rng);
        let die = Die::new().unwrap();
        Self { range, die }
    }
}

/// A roll of three dice.
#[derive(Debug, Copy, Clone, PartialEq, Eq, Structural, PartialOrd, Ord, Hash)]
pub struct Dice {
    d1: usize,
    d2: usize,
    d3: usize,
    sum: usize,
}

impl Dice {
    pub closed spec fn spec_d1(&self) -> usize {
        self.d1
    }

    pub closed spec fn spec_d2(&self) -> usize {
        self.d2
    }

    pub closed spec fn spec_d3(&self) -> usize {
        self.d3
    }

    pub closed spec fn spec_sum(&self) -> usize {
        self.sum
    }

    pub fn new(d1: usize, d2: usize, d3: usize, sum: usize) -> (dice: Self)
        ensures
            dice.d1() == d1,
            dice.d2() == d2,
            dice.d3() == d3,
            dice.sum() == sum,
    {
        Dice { d1, d2, d3, sum }
    }

    /// Whether the three faces are those of six-sided dice and the sum is
    /// theirs.
    pub open spec fn is_a_roll(&self) -> bool {
        &&& 1 <= self.d1() <= 6
        &&& 1 <= self.d2() <= 6
        &&& 1 <= self.d3() <= 6
        &&& self.sum() == self.d1() + self.d2() + self.d3()
    }

    /// The roll that shows these three faces, with its sum.
    pub fn from_faces(d1: usize, d2: usize, d3: usize) -> (dice: Self)
        requires
            d1 + d2 + d3 <= usize::MAX,
        ensures
            dice.d1() == d1,
            dice.d2() == d2,
            dice.d3() == d3,
            dice.sum() == d1 + d2 + d3,
    {
        let sum = d1 + d2 + d3;
        Self { d1, d2, d3, sum }
    }

    /// Rolls three dice.
    pub fn from_random(random: &mut Random) -> (dice: Self)
        ensures
            dice.is_a_roll(),
    {
        let d1 = random.roll_die();
        let d2 = random.roll_die();
        let d3 = random.roll_die();
        Self::from_faces(d1, d2, d3)
    }

    #[verifier::when_used_as_spec(spec_d1)]
    pub fn d1(&self) -> (face: usize)
        ensures
            face == self.d1(),
    {
        self.d1
    }

    #[verifier::when_used_as_spec(spec_d2)]
    pub fn d2(&self) -> (face: usize)
        ensures
            face == self.d2(),
    {
        self.d2
    }

    #[verifier::when_used_as_spec(spec_d3)]
    pub fn d3(&self) -> (face: usize)
        ensures
            face == self.d3(),
    {
        self.d3
    }

    #[verifier::when_used_as_spec(spec_sum)]
    pub fn sum(&self) -> (sum: usize)
        ensures
            sum == self.sum(),
    {
        self.sum
    }
}

impl Default for Dice {
    fn default() -> (dice: Self)
        ensures
            dice.d1() == 0,
            dice.d2() == 0,
            dice.d3() == 0,
            dice.sum() == 0,
    {
        Dice { d1: 0, d2: 0, d3: 0, sum: 0 }
    }
}

/// A roll is no more than its three faces and its sum: two that agree in
/// all four are the same.
pub proof fn lemma_dice_are_their_parts(a: Dice, b: Dice)
    requires
        a.d1() == b.d1(),
        a.d2() == b.d2(),
        a.d3() == b.d3(),
        a.sum() == b.sum(),
    ensures
        a == b,
{
}

} // verus!
