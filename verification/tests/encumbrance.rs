use valinoreth::{
    Attributes, Encumbrance, EncumbranceDodge, EncumbranceLevel, EncumbranceMove,
    EncumbranceWeight, Speed, Stats,
};

const LEVELS: [EncumbranceLevel; 5] = [
    EncumbranceLevel::Unencumbered,
    EncumbranceLevel::Light,
    EncumbranceLevel::Medium,
    EncumbranceLevel::Heavy,
    EncumbranceLevel::XHeavy,
];

fn weights(weight: &EncumbranceWeight) -> Vec<usize> {
    LEVELS.iter().map(|level| weight.value(level)).collect()
}

fn moves(enc_move: &EncumbranceMove) -> Vec<usize> {
    LEVELS.iter().map(|level| enc_move.value(level)).collect()
}

fn dodges(dodge: &EncumbranceDodge) -> Vec<i128> {
    LEVELS.iter().map(|level| dodge.value(level)).collect()
}

#[test]
fn weights_are_multiples_of_the_basic_lift() {
    let stats = Stats::new(20, 5, Speed::from_quarters(20));
    assert_eq!(weights(&EncumbranceWeight::from(&stats)), vec![20, 40, 60, 120, 200]);
}

#[test]
fn weights_scale_with_the_basic_lift() {
    for lift in [0usize, 1, 7, 12, 20, 333, 1_000_000] {
        let stats = Stats::new(lift, 5, Speed::from_quarters(20));
        assert_eq!(
            weights(&EncumbranceWeight::from(&stats)),
            vec![lift, lift * 2, lift * 3, lift * 6, lift * 10]
        );
    }
}

#[test]
fn weights_of_the_largest_lift_that_fits() {
    let lift = usize::MAX / 10;
    let stats = Stats::new(lift, 5, Speed::from_quarters(20));
    let weight = EncumbranceWeight::from(&stats);
    assert_eq!(weight.value(&EncumbranceLevel::XHeavy), lift * 10);
    assert_eq!(weight.value(&EncumbranceLevel::Heavy), lift * 6);
}

#[test]
fn moves_are_fifths_of_the_basic_move() {
    let stats = Stats::new(20, 5, Speed::from_quarters(20));
    assert_eq!(moves(&EncumbranceMove::from(&stats)), vec![5, 4, 3, 2, 1]);
}

#[test]
fn moves_drop_fractions() {
    for (basic_move, expected) in [
        (0usize, [0usize, 0, 0, 0, 0]),
        (1, [1, 0, 0, 0, 0]),
        (2, [2, 1, 1, 0, 0]),
        (3, [3, 2, 1, 1, 0]),
        (4, [4, 3, 2, 1, 0]),
        (6, [6, 4, 3, 2, 1]),
        (7, [7, 5, 4, 2, 1]),
        (9, [9, 7, 5, 3, 1]),
        (10, [10, 8, 6, 4, 2]),
        (15, [15, 12, 9, 6, 3]),
    ] {
        let stats = Stats::new(20, basic_move, Speed::from_quarters(20));
        assert_eq!(moves(&EncumbranceMove::from(&stats)), expected.to_vec(), "move {}", basic_move);
    }
}

#[test]
fn moves_agree_with_the_fractions_in_floats() {
    for basic_move in 0usize..500 {
        let stats = Stats::new(20, basic_move, Speed::from_quarters(20));
        let enc_move = EncumbranceMove::from(&stats);
        let expected: Vec<usize> = [1.0f64, 0.8, 0.6, 0.4, 0.2]
            .iter()
            .map(|part| (basic_move as f64 * part).floor() as usize)
            .collect();
        assert_eq!(moves(&enc_move), expected, "move {}", basic_move);
    }
}

#[test]
fn moves_of_the_largest_move() {
    let stats = Stats::new(20, usize::MAX, Speed::from_quarters(20));
    let enc_move = EncumbranceMove::from(&stats);
    assert_eq!(enc_move.value(&EncumbranceLevel::Unencumbered), usize::MAX);
    assert_eq!(enc_move.value(&EncumbranceLevel::Light) as u128, usize::MAX as u128 * 4 / 5);
    assert_eq!(enc_move.value(&EncumbranceLevel::XHeavy), usize::MAX / 5);
    let through_into: EncumbranceMove = (&stats).into();
    assert_eq!(enc_move, through_into);
}

#[test]
fn dodges_fall_by_one_for_each_level() {
    let stats = Stats::new(20, 5, Speed::from_quarters(21));
    assert_eq!(dodges(&EncumbranceDodge::from(&stats)), vec![8, 7, 6, 5, 4]);
}

#[test]
fn dodges_at_the_least_speed() {
    let stats = Stats::new(0, 1, Speed::from_quarters(4));
    assert_eq!(dodges(&EncumbranceDodge::from(&stats)), vec![4, 3, 2, 1, 0]);
    let stats = Stats::new(0, 1, Speed::from_quarters(7));
    assert_eq!(dodges(&EncumbranceDodge::from(&stats)), vec![4, 3, 2, 1, 0]);
}

#[test]
fn dodges_under_a_speed_of_1_are_not_clamped() {
    for quarters in 0..4 {
        let stats = Stats::new(0, 0, Speed::from_quarters(quarters));
        let dodge = EncumbranceDodge::from(&stats);
        assert_eq!(dodges(&dodge), vec![3, 2, 1, 0, -1]);
        assert_eq!(dodge.value(&EncumbranceLevel::XHeavy), 3 - 4);
    }
    let stats = Stats::from(Attributes::from_base(10, 1, 10, 2));
    let encumbrance = Encumbrance::from(&stats);
    assert_eq!(dodges(&encumbrance.dodge()), vec![3, 2, 1, 0, -1]);
}

#[test]
fn dodges_of_the_largest_speed() {
    let stats = Stats::new(0, 0, Speed::from_quarters(usize::MAX));
    let whole = (usize::MAX / 4) as i128;
    assert_eq!(
        dodges(&EncumbranceDodge::from(&stats)),
        vec![whole + 3, whole + 2, whole + 1, whole, whole - 1]
    );
    let stats = Stats::from(Attributes::from_base(10, usize::MAX, 10, usize::MAX));
    let whole = (usize::MAX / 2) as i128;
    let dodge: EncumbranceDodge = (&stats).into();
    assert_eq!(dodge.value(&EncumbranceLevel::Unencumbered), whole + 3);
    assert_eq!(dodge, EncumbranceDodge::from(&stats));
}

#[test]
fn encumbrance_of_an_average_character() {
    let stats = Stats::from(Attributes::from_base(10, 10, 10, 10));
    let encumbrance = Encumbrance::from(&stats);
    assert_eq!(weights(&encumbrance.weight()), vec![20, 40, 60, 120, 200]);
    assert_eq!(moves(&encumbrance.enc_move()), vec![5, 4, 3, 2, 1]);
    assert_eq!(dodges(&encumbrance.dodge()), vec![8, 7, 6, 5, 4]);
    assert_eq!(encumbrance.weight(), EncumbranceWeight::from(&stats));
    assert_eq!(encumbrance.enc_move(), EncumbranceMove::from(&stats));
    assert_eq!(encumbrance.dodge(), EncumbranceDodge::from(&stats));
}

#[test]
fn encumbrance_end_to_end() {
    let attributes = Attributes::from_vec(vec![8, 12, 11, 9, 9, 11, 11, 9]);
    let stats = Stats::from(attributes);
    assert_eq!(stats.basic_lift(), 12);
    assert_eq!(stats.basic_move(), 5);
    let encumbrance = Encumbrance::from(&stats);
    assert_eq!(encumbrance.weight().value(&EncumbranceLevel::Unencumbered), 12);
    assert_eq!(encumbrance.weight().value(&EncumbranceLevel::Light), 24);
    assert_eq!(weights(&encumbrance.weight()), vec![12, 24, 36, 72, 120]);
    assert_eq!(moves(&encumbrance.enc_move()), vec![5, 4, 3, 2, 1]);
    assert_eq!(dodges(&encumbrance.dodge()), vec![8, 7, 6, 5, 4]);
}

#[test]
fn encumbrance_tables_keep_what_they_are_given() {
    let weight = EncumbranceWeight::new(1, 2, 3, 4, 5);
    let enc_move = EncumbranceMove::new(6, 7, 8, 9, 10);
    let dodge = EncumbranceDodge::new(11, 12, 13, 14, 15);
    assert_eq!(weights(&weight), vec![1, 2, 3, 4, 5]);
    assert_eq!(moves(&enc_move), vec![6, 7, 8, 9, 10]);
    assert_eq!(dodges(&dodge), vec![11, 12, 13, 14, 15]);
    let encumbrance = Encumbrance::new(weight, enc_move, dodge);
    assert_eq!(encumbrance.weight(), weight);
    assert_eq!(encumbrance.enc_move(), enc_move);
    assert_eq!(encumbrance.dodge(), dodge);
}
