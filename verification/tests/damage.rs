use valinoreth::{Attributes, BaseDamage, DamageKind, DieLevel};

/// Strength, thrust dice, thrust pips, swing dice, swing pips.
const TABLE: [(usize, i64, i64, i64, i64); 101] = [
    (0, 0, 0, 0, 1),
    (1, 1, -6, 1, -5),
    (2, 1, -6, 1, -5),
    (3, 1, -5, 1, -4),
    (4, 1, -5, 1, -4),
    (5, 1, -4, 1, -3),
    (6, 1, -4, 1, -3),
    (7, 1, -3, 1, -2),
    (8, 1, -3, 1, -2),
    (9, 1, -2, 1, -1),
    (10, 1, -2, 1, 0),
    (11, 1, -1, 1, 1),
    (12, 1, -1, 1, 2),
    (13, 1, 0, 2, -1),
    (14, 1, 0, 2, 0),
    (15, 1, 1, 2, 1),
    (16, 1, 1, 2, 2),
    (17, 1, 2, 3, -1),
    (18, 1, 2, 3, 0),
    (19, 2, -1, 3, 1),
    (20, 2, -1, 3, 2),
    (21, 2, 0, 4, -1),
    (22, 2, 0, 4, 0),
    (23, 2, 1, 4, 1),
    (24, 2, 1, 4, 2),
    (25, 2, 2, 5, -1),
    (26, 2, 2, 5, 0),
    (27, 3, -1, 5, 1),
    (28, 3, -1, 5, 1),
    (29, 3, 0, 5, 2),
    (30, 3, 0, 5, 2),
    (31, 3, 1, 6, -1),
    (32, 3, 1, 6, -1),
    (33, 3, 2, 6, 0),
    (34, 3, 2, 6, 0),
    (35, 4, -1, 6, 1),
    (36, 4, -1, 6, 1),
    (37, 4, 0, 6, 2),
    (38, 4, 0, 6, 2),
    (39, 4, 1, 7, -1),
    (40, 4, 1, 7, -1),
    (41, 4, 1, 7, -1),
    (42, 4, 1, 7, -1),
    (43, 4, 1, 7, -1),
    (44, 4, 1, 7, -1),
    (45, 5, 0, 7, 1),
    (46, 5, 0, 7, 1),
    (47, 5, 0, 7, 1),
    (48, 5, 0, 7, 1),
    (49, 5, 0, 7, 1),
    (50, 5, 2, 8, -1),
    (51, 5, 2, 8, -1),
    (52, 5, 2, 8, -1),
    (53, 5, 2, 8, -1),
    (54, 5, 2, 8, -1),
    (55, 6, 0, 8, 1),
    (56, 6, 0, 8, 1),
    (57, 6, 0, 8, 1),
    (58, 6, 0, 8, 1),
    (59, 6, 0, 8, 1),
    (60, 7, -1, 9, 0),
    (61, 7, -1, 9, 0),
    (62, 7, -1, 9, 0),
    (63, 7, -1, 9, 0),
    (64, 7, -1, 9, 0),
    (65, 7, 1, 9, 2),
    (66, 7, 1, 9, 2),
    (67, 7, 1, 9, 2),
    (68, 7, 1, 9, 2),
    (69, 7, 1, 9, 2),
    (70, 8, 0, 10, 0),
    (71, 8, 0, 10, 0),
    (72, 8, 0, 10, 0),
    (73, 8, 0, 10, 0),
    (74, 8, 0, 10, 0),
    (75, 8, 2, 10, 2),
    (76, 8, 2, 10, 2),
    (77, 8, 2, 10, 2),
    (78, 8, 2, 10, 2),
    (79, 8, 2, 10, 2),
    (80, 9, 0, 11, 0),
    (81, 9, 0, 11, 0),
    (82, 9, 0, 11, 0),
    (83, 9, 0, 11, 0),
    (84, 9, 0, 11, 0),
    (85, 9, 2, 11, 2),
    (86, 9, 2, 11, 2),
    (87, 9, 2, 11, 2),
    (88, 9, 2, 11, 2),
    (89, 9, 2, 11, 2),
    (90, 10, 0, 12, 0),
    (91, 10, 0, 12, 0),
    (92, 10, 0, 12, 0),
    (93, 10, 0, 12, 0),
    (94, 10, 0, 12, 0),
    (95, 10, 2, 12, 2),
    (96, 10, 2, 12, 2),
    (97, 10, 2, 12, 2),
    (98, 10, 2, 12, 2),
    (99, 10, 2, 12, 2),
    (100, 11, 0, 13, 0),
];

fn damage_at(st: usize) -> BaseDamage {
    BaseDamage::from(Attributes::from_base(st, 10, 10, 10))
}

fn thrust_of(damage: &BaseDamage) -> DieLevel {
    match damage.thrust() {
        DamageKind::Thrust(level) => level,
        DamageKind::Swing(_) => panic!("the thrust is held as a swing"),
    }
}

fn swing_of(damage: &BaseDamage) -> DieLevel {
    match damage.swing() {
        DamageKind::Swing(level) => level,
        DamageKind::Thrust(_) => panic!("the swing is held as a thrust"),
    }
}

#[test]
fn base_damage_matches_the_table_up_to_100() {
    for (i, row) in TABLE.iter().enumerate() {
        let (st, thrust_dice, thrust_pips, swing_dice, swing_pips) = *row;
        assert_eq!(st, i);
        let damage = damage_at(st);
        assert_eq!(thrust_of(&damage), DieLevel::new(thrust_dice, thrust_pips), "thrust at {}", st);
        assert_eq!(swing_of(&damage), DieLevel::new(swing_dice, swing_pips), "swing at {}", st);
    }
}

#[test]
fn base_damage_at_the_ends_of_the_bands() {
    for (st, thrust, swing) in [
        (39, (4, 1), (7, -1)),
        (40, (4, 1), (7, -1)),
        (44, (4, 1), (7, -1)),
        (45, (5, 0), (7, 1)),
        (49, (5, 0), (7, 1)),
        (50, (5, 2), (8, -1)),
        (64, (7, -1), (9, 0)),
        (65, (7, 1), (9, 2)),
        (94, (10, 0), (12, 0)),
        (95, (10, 2), (12, 2)),
        (99, (10, 2), (12, 2)),
        (100, (11, 0), (13, 0)),
    ] {
        let damage = damage_at(st);
        assert_eq!(thrust_of(&damage), DieLevel::new(thrust.0, thrust.1), "thrust at {}", st);
        assert_eq!(swing_of(&damage), DieLevel::new(swing.0, swing.1), "swing at {}", st);
    }
}

#[test]
fn base_damage_above_100_goes_round_every_ten_points() {
    for (st, over) in [(101, 1), (109, 9), (110, 0), (111, 1), (115, 5), (200, 0), (1007, 7)] {
        let damage = damage_at(st);
        assert_eq!(thrust_of(&damage), DieLevel::new(11 + over, 0), "thrust at {}", st);
        assert_eq!(swing_of(&damage), DieLevel::new(13 + over, 0), "swing at {}", st);
    }
}

#[test]
fn base_damage_at_the_largest_strength() {
    let st = usize::MAX;
    let over = ((st - 100) % 10) as i64;
    let damage = damage_at(st);
    assert_eq!(thrust_of(&damage), DieLevel::new(11 + over, 0));
    assert_eq!(swing_of(&damage), DieLevel::new(13 + over, 0));
}

#[test]
fn base_damage_reads_strength_only() {
    let weak = Attributes::from_vec(vec![8, 12, 11, 9, 9, 11, 11, 9]);
    let other = Attributes::from_vec(vec![8, 1, 2, 3, 4, 5, 6, 7]);
    assert_eq!(BaseDamage::from(weak), BaseDamage::from(other));
    assert_eq!(thrust_of(&BaseDamage::from(weak)), DieLevel::new(1, -3));
    assert_eq!(swing_of(&BaseDamage::from(weak)), DieLevel::new(1, -2));
}

#[test]
fn base_damage_through_into() {
    let damage: BaseDamage = Attributes::from_base(10, 10, 10, 10).into();
    assert_eq!(damage.thrust(), DamageKind::Thrust(DieLevel::new(1, -2)));
    assert_eq!(damage.swing(), DamageKind::Swing(DieLevel::new(1, 0)));
    assert_eq!(damage.thrust().level(), DieLevel::new(1, -2));
    assert_eq!(damage.swing().level(), DieLevel::new(1, 0));
}

#[test]
fn die_level_keeps_what_it_is_given() {
    let level = DieLevel::new(3, -1);
    assert_eq!(level.dice(), 3);
    assert_eq!(level.pips(), -1);
    assert_eq!(DieLevel::default(), DieLevel::new(0, 0));
    let damage = BaseDamage::new(DamageKind::Thrust(level), DamageKind::Swing(DieLevel::new(5, 2)));
    assert_eq!(damage.thrust(), DamageKind::Thrust(level));
    assert_eq!(damage.swing(), DamageKind::Swing(DieLevel::new(5, 2)));
}
