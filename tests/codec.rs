use dnd_sheet::codec::{Alignment, Codec, FeatureClass, Gender, ItemRarity, ProficiencyClass, School, Stats};

#[test]
fn alignment_texts_read_back() {
    let all = vec![
        Alignment::LawfulGood,
        Alignment::NeutralGood,
        Alignment::ChaoticGood,
        Alignment::LawfulNeutral,
        Alignment::Neutral,
        Alignment::ChaoticNeutral,
        Alignment::LawfulEvil,
        Alignment::NeutralEvil,
        Alignment::ChaoticEvil,
    ];
    for a in all {
        let text = a.to_storable();
        assert_eq!(Alignment::from_storable(&text), Some(a));
    }
}

#[test]
fn lawful_evil_is_stored_as_its_own_text() {
    assert_eq!(Alignment::LawfulEvil.to_storable(), "Lawful Evil");
    assert_eq!(Alignment::from_storable("Lawful Evil"), Some(Alignment::LawfulEvil));
}

#[test]
fn every_enumeration_reads_back_its_text() {
    for r in [ItemRarity::Common, ItemRarity::Uncommon, ItemRarity::Rare, ItemRarity::VeryRare, ItemRarity::Legendary, ItemRarity::Unknown] {
        assert_eq!(ItemRarity::from_storable(&r.to_storable()), Some(r));
    }
    for p in [ProficiencyClass::Skill, ProficiencyClass::Armor, ProficiencyClass::Weapon, ProficiencyClass::Tool] {
        assert_eq!(ProficiencyClass::from_storable(&p.to_storable()), Some(p));
    }
    for s in [School::Abjuration, School::Conjuration, School::Divination, School::Enchantment, School::Evocation, School::Illusion, School::Necromancy, School::Transmutation] {
        assert_eq!(School::from_storable(&s.to_storable()), Some(s));
    }
    for f in [FeatureClass::Background, FeatureClass::Racial, FeatureClass::Class, FeatureClass::Feat, FeatureClass::Other] {
        assert_eq!(FeatureClass::from_storable(&f.to_storable()), Some(f));
    }
    for g in [Gender::Male, Gender::Female, Gender::Other] {
        assert_eq!(Gender::from_storable(&g.to_storable()), Some(g));
    }
    for s in [Stats::STR, Stats::DEX, Stats::CON, Stats::INT, Stats::WIS, Stats::CHA] {
        assert_eq!(Stats::from_storable(&s.to_storable()), Some(s));
    }
}

#[test]
fn stored_texts_are_exact() {
    assert_eq!(ItemRarity::VeryRare.to_storable(), "VeryRare");
    assert_eq!(School::Necromancy.to_storable(), "Necromancy");
    assert_eq!(Gender::Female.to_storable(), "Female");
    assert_eq!(Stats::WIS.to_storable(), "WIS");
    assert_eq!(FeatureClass::Racial.to_storable(), "Racial");
    assert_eq!(ProficiencyClass::Tool.to_storable(), "Tool");
}

#[test]
fn text_outside_an_enumeration_reads_as_nothing() {
    assert_eq!(ItemRarity::from_storable("Mythic"), None);
    assert_eq!(Alignment::from_storable("lawful good"), None);
    assert_eq!(School::from_storable(""), None);
    assert_eq!(Gender::from_storable("Male\n"), None);
}

#[test]
fn enumeration_defaults() {
    assert_eq!(Alignment::default(), Alignment::Neutral);
    assert_eq!(Gender::default(), Gender::Other);
    assert_eq!(Stats::default(), Stats::STR);
}
