use valinoreth::dice::Dice;
use valinoreth::Random;

#[test]
fn a_seeded_source_can_always_be_had() {
    for seed in [0u64, 1, 42, u64::MAX] {
        assert!(Random::from_seed(seed).is_ok());
    }
}

#[test]
fn a_die_shows_1_to_6() {
    let mut random = Random::from_seed(42).unwrap();
    let mut seen = [false; 7];
    for _ in 0..2000 {
        let face = random.roll_die();
        assert!((1..=6).contains(&face), "a die showed {}", face);
        seen[face] = true;
    }
    assert_eq!(seen, [false, true, true, true, true, true, true]);
}

#[test]
fn three_dice_add_up_to_3_to_18() {
    let mut random = Random::from_seed(7).unwrap();
    let mut least = usize::MAX;
    let mut most = 0;
    for _ in 0..5000 {
        let total = random.roll();
        assert!((3..=18).contains(&total), "three dice gave {}", total);
        least = least.min(total);
        most = most.max(total);
    }
    assert_eq!(least, 3);
    assert_eq!(most, 18);
}

#[test]
fn the_same_seed_gives_the_same_rolls() {
    let mut first = Random::from_seed(2024).unwrap();
    let mut second = Random::from_seed(2024).unwrap();
    assert_eq!(first, second);
    for _ in 0..100 {
        assert_eq!(first.roll_die(), second.roll_die());
    }
    let mut copy = first.clone();
    assert_eq!(first.roll(), copy.roll());
}

#[test]
fn seeds_give_rolls_of_their_own() {
    let mut first = Random::from_seed(1).unwrap();
    let mut second = Random::from_seed(2).unwrap();
    let a: Vec<usize> = (0..50).map(|_| first.roll_die()).collect();
    let b: Vec<usize> = (0..50).map(|_| second.roll_die()).collect();
    assert_ne!(a, b);
}

#[test]
fn a_roll_is_three_dice_of_the_source_in_turn() {
    let mut rolled = Random::from_seed(99).unwrap();
    let mut apart = Random::from_seed(99).unwrap();
    for _ in 0..50 {
        let total = rolled.roll();
        let faces = apart.roll_die() + apart.roll_die() + apart.roll_die();
        assert_eq!(total, faces);
    }
}

#[test]
fn dice_from_a_source() {
    let mut random = Random::from_seed(5).unwrap();
    let mut apart = Random::from_seed(5).unwrap();
    for _ in 0..200 {
        let dice = Dice::from_random(&mut random);
        assert!((1..=6).contains(&dice.d1()));
        assert!((1..=6).contains(&dice.d2()));
        assert!((1..=6).contains(&dice.d3()));
        assert_eq!(dice.sum(), dice.d1() + dice.d2() + dice.d3());
        let faces = (apart.roll_die(), apart.roll_die(), apart.roll_die());
        assert_eq!((dice.d1(), dice.d2(), dice.d3()), faces);
    }
}

#[test]
fn a_source_of_its_own_seed() {
    let mut random = Random::default();
    for _ in 0..100 {
        assert!((1..=6).contains(&random.roll_die()));
    }
    let dice = Dice::from_random(&mut random);
    assert_eq!(dice.sum(), dice.d1() + dice.d2() + dice.d3());
}

#[test]
fn dice_from_faces() {
    let dice = Dice::from_faces(2, 5, 6);
    assert_eq!((dice.d1(), dice.d2(), dice.d3(), dice.sum()), (2, 5, 6, 13));
    assert_eq!(dice, Dice::new(2, 5, 6, 13));
    let kept = Dice::new(1, 1, 1, 17);
    assert_eq!(kept.sum(), 17);
    assert_eq!(Dice::default(), Dice::new(0, 0, 0, 0));
}
