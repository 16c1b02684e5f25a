use koktel_tales::inventory::Item;
use koktel_tales::mechanics::{Player, PlayerClass, PlayerSpec, StatModifier};
use koktel_tales::shop::Shop;
use koktel_tales::talents::{ElementalDpsTree, MageTalents, RogueTalents, WarriorTalents};
use koktel_tales::wave_manager::{spawn_enemy_for_wave, wave_enemy_gold_fits, WaveManager};
use koktel_tales::combat::{EnemyStatus, BURN_DAMAGE, FIREBALL_BURN_TURNS};

#[test]
fn boss_countdown_over_waves() {
    let mut w = WaveManager::new();
    assert_eq!(w.current_wave, 1);
    assert_eq!(w.total_boss_killed, 0);
    let expected = [4, 3, 2, 1, 0, 4, 3, 2, 1, 0, 4];
    for e in expected {
        assert_eq!(w.waves_until_next_boss(), e);
        w.current_wave += 1;
    }
}

#[test]
fn wave_enemies() {
    let mut w = WaveManager::new();
    let e = w.spawn_wave_enemy();
    assert_eq!((e.name.as_str(), e.max_hp, e.armor, e.exp_reward, e.gold_reward), ("Cursed Skeleton", 80, 3, 20, 15));
    w.current_wave = 5;
    let e = w.spawn_wave_enemy();
    assert_eq!((e.name.as_str(), e.max_hp, e.armor, e.exp_reward, e.gold_reward), ("Archdemon Overlord (Boss Tier 1)", 1750, 60, 750, 500));
    w.current_wave = 6;
    assert_eq!(w.spawn_wave_enemy().name, "Elite Shadow Assassin");
    w.current_wave = 7;
    let e = w.spawn_wave_enemy();
    assert_eq!((e.name.as_str(), e.max_hp, e.gold_reward), ("Corrupted Golem", 1330, 210));
    w.current_wave = 11;
    assert_eq!(w.spawn_wave_enemy().name, "Cursed Skeleton");
    w.current_wave = 120;
    assert_eq!(w.spawn_wave_enemy().name, "Archdemon Overlord (Boss Tier 24)");
}

#[test]
fn loot_tiers() {
    let i = Item::generate_loot(PlayerClass::Warrior, 0);
    assert_eq!(i.name, "Vanguard Plate Armor T1");
    assert_eq!((i.strength_bonus, i.armor_bonus, i.price), (5, 12, 40));
    let i = Item::generate_loot(PlayerClass::Rogue, 5);
    assert_eq!(i.name, "Shadow-Stalker Vest T2");
    assert_eq!((i.agility_bonus, i.armor_bonus, i.price), (12, 12, 90));
    let i = Item::generate_loot(PlayerClass::Mage, 30);
    assert_eq!(i.name, "Archmage Robe T11");
    assert_eq!((i.intelligence_bonus, i.armor_bonus, i.price, i.strength_bonus), (88, 33, 550, 0));
}

#[test]
fn shop_stock_by_wave() {
    let p = Player::new("J", PlayerClass::Mage, PlayerSpec::MageHealer);
    let mut armour = false;
    let mut amulet = false;
    let mut ring = false;
    let mut crystal = false;
    for _ in 0..200 {
        let s = Shop::generate_shop_stock(&p, 3);
        assert_eq!(s.items_for_sale.len(), 3);
        assert_eq!(s.items_for_sale[0].name, "Archmage Staff (+12 Int)");
        assert_eq!(s.items_for_sale[0].price, 45);
        assert_eq!(s.items_for_sale[0].modifier, StatModifier::AddIntelligence(12));
        match s.items_for_sale[1].modifier {
            StatModifier::AddArmor(14) => {
                assert_eq!((s.items_for_sale[1].name.as_str(), s.items_for_sale[1].price), ("Reinforced Platemail (+14 Armor)", 34));
                armour = true;
            },
            StatModifier::AddMaxHp(65) => {
                assert_eq!((s.items_for_sale[1].name.as_str(), s.items_for_sale[1].price), ("Vitality Amulet (+65 Max HP)", 36));
                amulet = true;
            },
            other => panic!("unexpected second offer {:?}", other),
        }
        match s.items_for_sale[2].modifier {
            StatModifier::AddCritChance(5) => {
                assert_eq!((s.items_for_sale[2].name.as_str(), s.items_for_sale[2].price), ("Sharp Eye Ring (+5% Crit)", 56));
                ring = true;
            },
            StatModifier::AddMaxMana(45) => {
                assert_eq!((s.items_for_sale[2].name.as_str(), s.items_for_sale[2].price), ("Ancient Mana Crystal (+45 Max Mana)", 28));
                crystal = true;
            },
            other => panic!("unexpected third offer {:?}", other),
        }
    }
    assert!(armour && amulet && ring && crystal);
}

#[test]
fn buying_pays_and_removes_the_offer() {
    let mut p = Player::new("W", PlayerClass::Warrior, PlayerSpec::WarriorDPS);
    let mut s = Shop::generate_shop_stock(&p, 1);
    assert_eq!(s.items_for_sale[0].name, "Vanguard Greatsword (+4 Str)");
    assert_eq!(s.buy_item(&mut p, 0), None);
    assert_eq!(s.items_for_sale.len(), 3);
    p.gold = 30;
    assert_eq!(s.buy_item(&mut p, 3), None);
    assert_eq!(s.buy_item(&mut p, 0), Some(StatModifier::AddStrength(4)));
    assert_eq!(p.gold, 5);
    assert_eq!(s.items_for_sale.len(), 2);
    assert_eq!(s.buy_item(&mut p, 0), None);
    assert_eq!(p.gold, 5);
}

#[test]
fn talent_trees_start_empty() {
    let w = WarriorTalents::new();
    assert!(!w.taunt_unlocked && w.war_fury_lvl == 0 && w.executioner_lvl == 0);
    let r = RogueTalents::new();
    assert!(r.flurry_blades_lvl == 0 && !r.shadow_step_unlocked && r.counter_attack_lvl == 0);
    let m = MageTalents::new();
    assert!(m.holy_heal == 0 && m.dps_tree.is_none());
    match ElementalDpsTree::new_ice() {
        ElementalDpsTree::Ice(i) => assert_eq!(i.frostbolt + i.deep_freeze + i.ice_lance + i.shatter + i.blizzard, 0),
        _ => panic!("ice expected"),
    }
    assert!(matches!(ElementalDpsTree::new_fire(), ElementalDpsTree::Fire(_)));
    assert!(matches!(ElementalDpsTree::new_void(), ElementalDpsTree::Void(_)));
    assert!(matches!(ElementalDpsTree::new_poison(), ElementalDpsTree::Poison(_)));
}

#[test]
fn campaign_enemies_by_wave() {
    let e = spawn_enemy_for_wave(1);
    assert_eq!((e.name.as_str(), e.base_hp, e.base_armor, e.base_exp, e.gold_reward), ("Goblin Scout (Wave 1)", 80, 5, 75, 40));
    let e = spawn_enemy_for_wave(4);
    assert_eq!((e.name.as_str(), e.base_hp, e.gold_reward), ("Fire Dragon (Wave 4)", 1000, 290));
    let e = spawn_enemy_for_wave(10);
    assert_eq!((e.name.as_str(), e.base_hp, e.base_armor, e.base_exp, e.gold_reward), ("Ancient Golem Boss (Wave 10)", 2000, 60, 800, 1000));
    let e = spawn_enemy_for_wave(13);
    assert_eq!((e.name.as_str(), e.gold_reward), ("Dark Knight (Wave 13)", 240));
    assert!(wave_enemy_gold_fits(1000));
    assert!(!wave_enemy_gold_fits(u32::MAX));
    assert!(!wave_enemy_gold_fits(85_899_340));
    assert!(wave_enemy_gold_fits(85_899_335));
    assert!(wave_enemy_gold_fits(85_899_339));
}

#[test]
fn burning_and_poison_over_turns() {
    let mut s = EnemyStatus::new();
    assert_eq!(s.tick_dots().burn, None);
    s.ignite_turns = FIREBALL_BURN_TURNS;
    s.poison_stacks = 2;
    let mut burnt = 0;
    for _ in 0..5 {
        let t = s.tick_dots();
        burnt += t.burn.unwrap_or(0);
        assert_eq!(t.poison, Some(30));
    }
    assert_eq!(burnt, 3 * BURN_DAMAGE);
    assert_eq!(s.ignite_turns, 0);
    s.is_frozen = true;
    assert!(s.skips_attack());
    assert!(!s.skips_attack());
}

#[test]
fn frostbolt_freezes_and_ice_lance_shatters() {
    let mut s = EnemyStatus::new();
    s.poison_stacks = 4;
    s.ignite_turns = 2;
    assert!(!s.shatter());
    assert!(!s.is_frozen);
    s.freeze();
    assert!(s.is_frozen);
    assert_eq!((s.poison_stacks, s.ignite_turns), (4, 2));
    assert!(s.shatter());
    assert!(!s.is_frozen);
    assert!(!s.skips_attack());
    s.freeze();
    assert!(s.skips_attack());
    assert_eq!((s.poison_stacks, s.ignite_turns), (4, 2));
}

#[test]
fn fireball_sets_a_fresh_three_turn_burn() {
    let mut s = EnemyStatus::new();
    s.ignite();
    assert_eq!(s.ignite_turns, 3);
    s.tick_dots();
    s.tick_dots();
    assert_eq!(s.ignite_turns, 1);
    s.ignite();
    assert_eq!(s.ignite_turns, 3);
    assert!(!s.is_frozen);
    assert_eq!(s.poison_stacks, 0);
    let mut burnt = 0;
    for _ in 0..6 {
        burnt += s.tick_dots().burn.unwrap_or(0);
    }
    assert_eq!(burnt, 105);
}

#[test]
fn gold_rewards_add_up() {
    let mut p = Player::new("G", PlayerClass::Rogue, PlayerSpec::RogueDuelist);
    assert_eq!(p.gold, 0);
    p.collect_gold(25);
    p.collect_gold(17);
    assert_eq!(p.gold, 42);
    assert_eq!(p.level, 1);
    p.gold = u32::MAX - 1;
    p.collect_gold(1);
    assert_eq!(p.gold, u32::MAX);
}

#[test]
fn stock_follows_the_coins() {
    let s = Shop::stock_with_coins(PlayerClass::Rogue, 2, true, false);
    assert_eq!(s.items_for_sale[0].name, "Deadly Stiletto (+8 Agi)");
    assert_eq!(s.items_for_sale[0].price, 35);
    assert_eq!(s.items_for_sale[1].name, "Reinforced Platemail (+11 Armor)");
    assert_eq!(s.items_for_sale[1].modifier, StatModifier::AddArmor(11));
    assert_eq!(s.items_for_sale[1].price, 26);
    assert_eq!(s.items_for_sale[2].name, "Ancient Mana Crystal (+35 Max Mana)");
    assert_eq!(s.items_for_sale[2].price, 22);
    let s = Shop::stock_with_coins(PlayerClass::Warrior, 0, false, true);
    assert_eq!(s.items_for_sale[0].modifier, StatModifier::AddStrength(0));
    assert_eq!(s.items_for_sale[1].name, "Vitality Amulet (+20 Max HP)");
    assert_eq!(s.items_for_sale[1].price, 12);
    assert_eq!(s.items_for_sale[2].name, "Sharp Eye Ring (+2% Crit)");
    assert_eq!(s.items_for_sale[2].modifier, StatModifier::AddCritChance(2));
    assert_eq!(s.items_for_sale[2].price, 20);
}
