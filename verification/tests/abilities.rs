use koktel_tales::mechanics::{
    base_attributes, build_player, get_talent_list, mana_cost, AbilityEffect, AbilityOutcome,
    AbilityRefusal, BasicAttack, BlockChange, Player, PlayerClass, PlayerSpec, SpecChoice, SpellCast,
    TalentUpgrade, WeaponStyle,
};
use koktel_tales::talents::{ElementalDpsTree, MageElement, PlayerTalentTree};

fn ice_mage(points: u32) -> Player {
    let mut m = Player::new("J", PlayerClass::Mage, PlayerSpec::MageElemental);
    m.choose_elemental_spec("ice");
    m.talent_points = points;
    m
}

#[test]
fn test_warrior_dps_base_stats() {
    let p = Player::new("T", PlayerClass::Warrior, PlayerSpec::WarriorDPS);
    let a = base_attributes(p.spec);
    assert_eq!(a.strength as f64, 30.0);
    assert_eq!(a.agility as f64, 18.0);
    assert_eq!(a.intelligence as f64, 15.0);
    assert_eq!(p.level, 1);
    assert_eq!(p.talent_points, 0);
    assert_eq!(p.gold, 0);
}

#[test]
fn test_mana_costs_defined() {
    assert_eq!(mana_cost("basic_attack") as f64, 0.0);
    assert_eq!(mana_cost("frostbolt") as f64, 20.0);
    assert_eq!(mana_cost("fireball") as f64, 25.0);
    assert_eq!(mana_cost("void_bolt") as f64, 18.0);
    assert_eq!(mana_cost("holy_heal") as f64, 30.0);
    assert_eq!(mana_cost("shadow_step") as f64, 15.0);
}

#[test]
fn test_frostbolt_deducts_mana() {
    let mut m = ice_mage(1);
    m.upgrade_mage_dps_talent("frostbolt");
    match m.use_ability("frostbolt", true, 0) {
        AbilityOutcome::Performed { mana_spent, .. } => assert_eq!(mana_spent, mana_cost("frostbolt")),
        other => panic!("frostbolt refused: {:?}", other),
    }
}

#[test]
fn test_not_enough_mana_blocks_cast() {
    let mut m = ice_mage(1);
    m.upgrade_mage_dps_talent("frostbolt");
    let outcome = m.use_ability("frostbolt", false, 0);
    assert_eq!(outcome, AbilityOutcome::Refused(AbilityRefusal::NotEnoughMana));
    assert_eq!(m.cooldowns.get("frostbolt"), None);
}

#[test]
fn test_basic_attack_costs_no_mana() {
    let mut w = Player::new("T", PlayerClass::Warrior, PlayerSpec::WarriorDPS);
    match w.use_ability("basic_attack", true, 27) {
        AbilityOutcome::Performed { mana_spent, .. } => assert_eq!(mana_spent, 0),
        other => panic!("basic attack refused: {:?}", other),
    }
}

#[test]
fn test_frostbolt_cooldown() {
    let mut m = ice_mage(1);
    m.upgrade_mage_dps_talent("frostbolt");
    assert!(matches!(m.use_ability("frostbolt", true, 0), AbilityOutcome::Performed { .. }));
    assert_eq!(m.use_ability("frostbolt", true, 0), AbilityOutcome::Refused(AbilityRefusal::OnCooldown(3)));
    m.tick_cooldowns();
    m.tick_cooldowns();
    m.tick_cooldowns();
    assert!(matches!(m.use_ability("frostbolt", true, 0), AbilityOutcome::Performed { .. }));
}

#[test]
fn frostbolt_counts_down_its_three_turns() {
    let mut m = ice_mage(1);
    m.upgrade_mage_dps_talent("frostbolt");
    assert!(matches!(m.use_ability("frostbolt", true, 0), AbilityOutcome::Performed { .. }));
    assert_eq!(m.cooldowns.get("frostbolt"), Some(3));
    assert!(m.tick_cooldowns().is_empty());
    assert_eq!(m.use_ability("frostbolt", true, 0), AbilityOutcome::Refused(AbilityRefusal::OnCooldown(2)));
    assert!(m.tick_cooldowns().is_empty());
    assert_eq!(m.use_ability("frostbolt", true, 0), AbilityOutcome::Refused(AbilityRefusal::OnCooldown(1)));
    assert_eq!(m.tick_cooldowns(), vec!["frostbolt".to_string()]);
    assert_eq!(m.use_ability("frostbolt", false, 0), AbilityOutcome::Refused(AbilityRefusal::NotEnoughMana));
    assert_eq!(
        m.use_ability("frostbolt", true, 0),
        AbilityOutcome::Performed { mana_spent: 20, effect: AbilityEffect::Frostbolt { rank: 1 } }
    );
}

#[test]
fn unknown_ability_costs_nothing() {
    assert_eq!(mana_cost("dance"), 0);
    assert_eq!(mana_cost(""), 0);
    assert_eq!(mana_cost("resurrection"), 150);
    assert_eq!(mana_cost("Frostbolt"), 0);
}

#[test]
fn unavailable_ability_is_refused() {
    let mut w = Player::new("T", PlayerClass::Warrior, PlayerSpec::WarriorDPS);
    assert_eq!(w.use_ability("taunt", true, 0), AbilityOutcome::Refused(AbilityRefusal::NotAvailable));
    assert_eq!(w.use_ability("fireball", true, 0), AbilityOutcome::Refused(AbilityRefusal::NotAvailable));
}

#[test]
fn new_player_offers_only_basic_attack() {
    for (class, spec) in [
        (PlayerClass::Warrior, PlayerSpec::WarriorTank),
        (PlayerClass::Rogue, PlayerSpec::RogueDuelist),
        (PlayerClass::Mage, PlayerSpec::MageHealer),
    ] {
        let p = Player::new("P", class, spec);
        assert_eq!(p.get_available_abilities(), vec!["basic_attack".to_string()]);
        assert_eq!(p.weapon_style, WeaponStyle::TwoHanded);
    }
}

#[test]
fn learnt_spells_are_offered_in_order() {
    let mut m = ice_mage(3);
    assert_eq!(m.upgrade_mage_dps_talent("ice_lance"), TalentUpgrade::Upgraded);
    assert_eq!(m.upgrade_mage_dps_talent("frostbolt"), TalentUpgrade::Upgraded);
    assert_eq!(m.talent_points, 1);
    assert_eq!(
        m.get_available_abilities(),
        vec!["basic_attack".to_string(), "frostbolt".to_string(), "ice_lance".to_string()]
    );
}

#[test]
fn talent_upgrade_refusals() {
    let mut m = Player::new("J", PlayerClass::Mage, PlayerSpec::MageElemental);
    assert_eq!(m.upgrade_mage_dps_talent("frostbolt"), TalentUpgrade::NoTalentPoints);
    m.talent_points = 1;
    assert_eq!(m.upgrade_mage_dps_talent("frostbolt"), TalentUpgrade::NoElementalSpec);
    m.choose_elemental_spec("fire");
    assert_eq!(m.upgrade_mage_dps_talent("frostbolt"), TalentUpgrade::UnknownTalent(MageElement::Fire));
    assert_eq!(m.talent_points, 1);
    assert_eq!(m.upgrade_mage_dps_talent("ignite"), TalentUpgrade::Upgraded);
    assert_eq!(m.talent_points, 0);
    let mut w = Player::new("W", PlayerClass::Warrior, PlayerSpec::WarriorDPS);
    w.talent_points = 2;
    assert_eq!(w.upgrade_mage_dps_talent("frostbolt"), TalentUpgrade::NotMage);
    assert_eq!(w.talent_points, 2);
}

#[test]
fn talent_points_plus_ranks_stay_constant() {
    let mut m = Player::new("J", PlayerClass::Mage, PlayerSpec::MageElemental);
    m.choose_elemental_spec("poison");
    m.talent_points = 4;
    for name in ["venom_strike", "toxic_cloud", "weaken", "venom_strike"] {
        m.upgrade_mage_dps_talent(name);
    }
    let ranks = match &m.talents {
        PlayerTalentTree::Mage(t) => match &t.dps_tree {
            Some(ElementalDpsTree::Poison(p)) => p.venom_strike + p.toxic_cloud + p.weaken + p.plague_carrier + p.lethal_dose,
            _ => panic!("poison branch expected"),
        },
        _ => panic!("mage expected"),
    };
    assert_eq!(ranks + m.talent_points, 4);
    assert_eq!(m.talent_points, 1);
}

#[test]
fn elemental_spec_is_case_insensitive() {
    let mut m = Player::new("J", PlayerClass::Mage, PlayerSpec::MageElemental);
    assert_eq!(m.choose_elemental_spec("ICE"), SpecChoice::Chosen(MageElement::Ice));
    assert_eq!(m.choose_elemental_spec("Void"), SpecChoice::Chosen(MageElement::Void));
    assert_eq!(m.choose_elemental_spec("lightning"), SpecChoice::InvalidElement);
    assert_eq!(m.talent_rank("void_bolt"), Some(0));
    let mut r = Player::new("R", PlayerClass::Rogue, PlayerSpec::RogueAssassin);
    assert_eq!(r.choose_elemental_spec("fire"), SpecChoice::NotMage);
}

#[test]
fn choosing_a_new_element_resets_the_branch() {
    let mut m = ice_mage(1);
    m.upgrade_mage_dps_talent("frostbolt");
    assert_eq!(m.talent_rank("frostbolt"), Some(1));
    m.choose_elemental_spec("ice");
    assert_eq!(m.talent_rank("frostbolt"), Some(0));
    assert_eq!(m.get_available_abilities(), vec!["basic_attack".to_string()]);
}

#[test]
fn mage_spells_by_branch() {
    let w = Player::new("W", PlayerClass::Warrior, PlayerSpec::WarriorDPS);
    assert_eq!(w.cast_mage_spell("fireball"), SpellCast::NotMage);
    let mut m = Player::new("J", PlayerClass::Mage, PlayerSpec::MageElemental);
    assert_eq!(m.cast_mage_spell("fireball"), SpellCast::NoElementalSpec);
    m.choose_elemental_spec("fire");
    assert_eq!(m.cast_mage_spell("fireball"), SpellCast::NotUnlocked);
    assert_eq!(m.cast_mage_spell("frostbolt"), SpellCast::NotInBranch(MageElement::Fire));
    m.talent_points = 2;
    m.upgrade_mage_dps_talent("fireball");
    m.upgrade_mage_dps_talent("fireball");
    assert_eq!(m.cast_mage_spell("fireball"), SpellCast::Fireball { rank: 2 });
    m.choose_elemental_spec("poison");
    assert_eq!(m.cast_mage_spell("venom_strike"), SpellCast::NotImplemented(MageElement::Poison));
}

#[test]
fn ice_lance_effect_and_cooldown() {
    let mut m = ice_mage(2);
    m.upgrade_mage_dps_talent("ice_lance");
    m.upgrade_mage_dps_talent("ice_lance");
    assert_eq!(
        m.use_ability("ice_lance", true, 0),
        AbilityOutcome::Performed { mana_spent: 15, effect: AbilityEffect::IceLance { rank: 2 } }
    );
    assert_eq!(m.cooldowns.get("ice_lance"), Some(1));
    let ready = m.tick_cooldowns();
    assert_eq!(ready, vec!["ice_lance".to_string()]);
    assert_eq!(m.cooldowns.get("ice_lance"), Some(0));
    assert!(m.tick_cooldowns().is_empty());
}

#[test]
fn basic_attack_strikes() {
    let mut w = Player::new("T", PlayerClass::Warrior, PlayerSpec::WarriorDPS);
    for _ in 0..20 {
        assert_eq!(
            w.use_ability("basic_attack", true, 0),
            AbilityOutcome::Performed { mana_spent: 0, effect: AbilityEffect::BasicAttack(BasicAttack::Strike { extra_strike: false }) }
        );
        assert_eq!(
            w.use_ability("basic_attack", true, 100),
            AbilityOutcome::Performed { mana_spent: 0, effect: AbilityEffect::BasicAttack(BasicAttack::Strike { extra_strike: true }) }
        );
    }
}

#[test]
fn flurry_strikes_three_to_five_times() {
    let mut r = build_player(PlayerClass::Rogue, PlayerSpec::RogueAssassin, None, None);
    let mut seen = [false; 6];
    for _ in 0..300 {
        match r.use_ability("basic_attack", true, 100) {
            AbilityOutcome::Performed { effect: AbilityEffect::BasicAttack(BasicAttack::Flurry { hits }), .. } => {
                assert!((3..=5).contains(&hits));
                seen[hits as usize] = true;
            },
            other => panic!("flurry expected: {:?}", other),
        }
    }
    assert!(seen[3] && seen[4] && seen[5]);
}

#[test]
fn built_heroes_get_their_first_talent() {
    let m = build_player(PlayerClass::Mage, PlayerSpec::MageElemental, Some("ice"), Some("frostbolt"));
    assert_eq!(m.name, "Hero");
    assert_eq!(m.talent_points, 0);
    assert_eq!(m.get_available_abilities(), vec!["basic_attack".to_string(), "frostbolt".to_string()]);
    let t = build_player(PlayerClass::Warrior, PlayerSpec::WarriorTank, None, None);
    assert_eq!(t.get_available_abilities(), vec!["basic_attack".to_string(), "taunt".to_string()]);
    let d = build_player(PlayerClass::Warrior, PlayerSpec::WarriorDPS, None, None);
    assert_eq!(d.get_available_abilities(), vec!["basic_attack".to_string(), "war_fury".to_string()]);
    let v = build_player(PlayerClass::Mage, PlayerSpec::MageElemental, Some("void"), Some("void_bolt"));
    assert_eq!(v.get_available_abilities(), vec!["basic_attack".to_string(), "void_bolt".to_string()]);
    assert_eq!(get_talent_list(&v), vec!["void_bolt".to_string(), "void_drain".to_string()]);
}

#[test]
fn level_up_grants_point_and_class_gains() {
    let mut p = Player::new("T", PlayerClass::Rogue, PlayerSpec::RogueDuelist);
    for _ in 0..5 {
        let g = p.level_up();
        assert_eq!((g.strength, g.agility, g.intelligence), (1, 3, 1));
    }
    assert_eq!(p.level, 6);
    assert_eq!(p.talent_points, p.level - 1);
}

#[test]
fn shield_sets_and_clears_block() {
    let mut p = Player::new("T", PlayerClass::Warrior, PlayerSpec::WarriorTank);
    assert_eq!(p.set_weapon_style(WeaponStyle::TwoHanded), BlockChange::Unchanged);
    assert_eq!(p.set_weapon_style(WeaponStyle::OneHandedShield), BlockChange::Equipped { chance_percent: 15, value: 8 });
    assert_eq!(p.weapon_style, WeaponStyle::OneHandedShield);
    assert_eq!(p.set_weapon_style(WeaponStyle::OneHandedShield), BlockChange::Equipped { chance_percent: 15, value: 8 });
    assert_eq!(p.set_weapon_style(WeaponStyle::TwoHanded), BlockChange::Removed);
    assert_eq!(p.weapon_style, WeaponStyle::TwoHanded);
}

#[test]
fn test_warrior_tank_base_stats() {
    let p = Player::new("T", PlayerClass::Warrior, PlayerSpec::WarriorTank);
    let a = base_attributes(p.spec);
    assert_eq!(a.strength as f64, 32.0);
    assert_eq!(a.agility as f64, 15.0);
}

#[test]
fn test_level_up_increases_stats() {
    let mut p = Player::new("T", PlayerClass::Warrior, PlayerSpec::WarriorDPS);
    let st0 = base_attributes(p.spec).strength;
    let gains = p.level_up();
    assert_eq!(p.level, 2);
    assert_eq!(p.talent_points, 1);
    assert!(st0 + gains.strength > st0);
    assert_eq!(gains.strength, 3);
}

#[test]
fn basic_attack_from_given_rolls() {
    assert_eq!(BasicAttack::from_rolls(true, 4, 0, 50), BasicAttack::Flurry { hits: 4 });
    assert_eq!(BasicAttack::from_rolls(true, 3, 99, 0), BasicAttack::Flurry { hits: 3 });
    assert_eq!(BasicAttack::from_rolls(false, 5, 27, 27), BasicAttack::Strike { extra_strike: true });
    assert_eq!(BasicAttack::from_rolls(false, 5, 28, 27), BasicAttack::Strike { extra_strike: false });
    assert_eq!(BasicAttack::from_rolls(false, 0, 1, 0), BasicAttack::Strike { extra_strike: false });
}

#[test]
fn lowercase_element_names() {
    let mut m = Player::new("J", PlayerClass::Mage, PlayerSpec::MageElemental);
    assert_eq!(m.choose_lowercase_element("ICE"), SpecChoice::InvalidElement);
    assert_eq!(m.choose_lowercase_element("poison"), SpecChoice::Chosen(MageElement::Poison));
    assert_eq!(get_talent_list(&m), vec!["venom_strike".to_string(), "toxic_cloud".to_string()]);
    let mut w = Player::new("W", PlayerClass::Warrior, PlayerSpec::WarriorDPS);
    assert_eq!(w.choose_lowercase_element("ice"), SpecChoice::NotMage);
}
