use valinoreth::{
    AbsoluteDirection, Advantage, AttributeType, Attributes, BaseDamage, CharacterSheet,
    DamageKind, DieLevel, Disadvantage, Duty, EiditicMemory, Encumbrance, EncumbranceLevel, Luck,
    Players, SenseOfDuty, Stats, Wealth,
};

#[test]
fn paeva() {
    let sheet = Players::paeva();
    let attributes = Attributes::from_vec(vec![8, 12, 11, 9, 9, 11, 11, 9]);
    assert_eq!(sheet.attributes(), attributes);
    assert_eq!(sheet.attributes().value(&AttributeType::Strength), 8);
    assert_eq!(sheet.attributes().value(&AttributeType::HitPoints), 9);
    assert_eq!(sheet.stats(), Stats::from(attributes));
    assert_eq!(sheet.stats().basic_lift(), 12);
    assert_eq!(sheet.stats().basic_move(), 5);
    assert_eq!(sheet.stats().basic_speed().whole(), 5);
    assert_eq!(sheet.stats().basic_speed().quarters(), 1);
    assert_eq!(sheet.base_damage(), BaseDamage::from(attributes));
    assert_eq!(sheet.base_damage().thrust(), DamageKind::Thrust(DieLevel::new(1, -3)));
    assert_eq!(sheet.base_damage().swing(), DamageKind::Swing(DieLevel::new(1, -2)));
    assert_eq!(sheet.encumbrance(), Encumbrance::from(&sheet.stats()));
    assert_eq!(sheet.encumbrance().weight().value(&EncumbranceLevel::Unencumbered), 12);
    assert_eq!(sheet.encumbrance().weight().value(&EncumbranceLevel::Light), 24);
    assert_eq!(sheet.encumbrance().dodge().value(&EncumbranceLevel::XHeavy), 4);
    assert_eq!(
        sheet.features().advantages(),
        &vec![
            Advantage::AbsoluteDirection(AbsoluteDirection::Normal),
            Advantage::Ambidexterity,
            Advantage::AnimalEmpathy,
            Advantage::IndependentIncome(1),
            Advantage::Luck(Luck::Normal),
            Advantage::Status(2),
            Advantage::Wealth(Wealth::VeryWealthy),
            Advantage::Voice,
        ]
    );
    assert_eq!(
        sheet.features().disadvantages(),
        &vec![
            Disadvantage::Duty(Duty::FairlyOften),
            Disadvantage::Selfless,
            Disadvantage::SenseOfDuty(SenseOfDuty::LargeGroup),
        ]
    );
    assert!(sheet.features().perks().is_empty());
    assert_eq!(sheet.advantages_cost(), 81);
    assert_eq!(sheet.disadvantages_cost(), -20);
}

#[test]
fn tanithas() {
    let sheet = Players::tanithas();
    let attributes = Attributes::from_base(8, 8, 19, 8);
    assert_eq!(sheet.attributes(), attributes);
    assert_eq!(sheet.attributes().value(&AttributeType::Intelligence), 19);
    assert_eq!(sheet.attributes().value(&AttributeType::Willpower), 19);
    assert_eq!(sheet.stats().basic_lift(), 12);
    assert_eq!(sheet.stats().basic_move(), 4);
    assert_eq!(sheet.stats().basic_speed().whole(), 4);
    assert_eq!(sheet.stats().basic_speed().quarters(), 0);
    assert_eq!(sheet.base_damage().thrust(), DamageKind::Thrust(DieLevel::new(1, -3)));
    assert_eq!(sheet.base_damage().swing(), DamageKind::Swing(DieLevel::new(1, -2)));
    assert_eq!(sheet.encumbrance().weight().value(&EncumbranceLevel::XHeavy), 120);
    assert_eq!(sheet.encumbrance().enc_move().value(&EncumbranceLevel::Light), 3);
    assert_eq!(sheet.encumbrance().dodge().value(&EncumbranceLevel::Unencumbered), 7);
    assert_eq!(
        sheet.features().advantages(),
        &vec![
            Advantage::Ambidexterity,
            Advantage::BardicTalent(3),
            Advantage::EasyCasting(1),
            Advantage::EiditicMemory(EiditicMemory::Photographic),
            Advantage::LessSleep(2),
            Advantage::Magery(3),
            Advantage::ReducedConsumption(2),
            Advantage::StableCasting,
        ]
    );
    assert_eq!(
        sheet.features().disadvantages(),
        &vec![Disadvantage::Destiny(60), Disadvantage::SocialStigma(4), Disadvantage::Status(3)]
    );
    assert_eq!(sheet.advantages_cost(), 92);
    assert_eq!(sheet.disadvantages_cost(), -95);
}

#[test]
fn a_sheet_of_one_s_own() {
    let attributes = Attributes::from_base(13, 11, 10, 12);
    let sheet = CharacterSheet::draw_up(
        attributes,
        vec![Advantage::CombatReflexes, Advantage::Luck(Luck::Normal)],
        vec![Disadvantage::Stubborn, Disadvantage::Status(1)],
    );
    assert_eq!(sheet.attributes(), attributes);
    assert_eq!(sheet.stats().basic_lift(), 33);
    assert_eq!(sheet.stats().basic_move(), 5);
    assert_eq!(sheet.stats().basic_speed().quarters(), 3);
    assert_eq!(sheet.base_damage().thrust(), DamageKind::Thrust(DieLevel::new(1, 0)));
    assert_eq!(sheet.base_damage().swing(), DamageKind::Swing(DieLevel::new(2, -1)));
    assert_eq!(sheet.encumbrance().weight().value(&EncumbranceLevel::Heavy), 198);
    assert_eq!(sheet.advantages_cost(), 30);
    assert_eq!(sheet.disadvantages_cost(), -5);
    assert!(sheet.features().perks().is_empty());
}
