//! Class armour dropped as loot; it grows one tier every three waves.
use vstd::prelude::*;
use crate::mechanics::PlayerClass;
use crate::text::{decimal, numbered};

verus! {

/// A piece of armour. Bonuses are whole points.
pub struct Item {
    pub name: String,
    pub class_restriction: PlayerClass,
    pub strength_bonus: u32,
    pub agility_bonus: u32,
    pub intelligence_bonus: u32,
    pub armor_bonus: u32,
    pub price: u32,
}

/// Tier of the loot of a wave: one more every three waves.
pub open spec fn loot_tier(wave: u32) -> int {
    wave / 3 + 1
}

/// Price of one tier of a class's armour.
pub open spec fn price_per_tier(class: PlayerClass) -> int {
    match class {
        PlayerClass::Warrior => 40,
        PlayerClass::Rogue => 45,
        PlayerClass::Mage => 50,
    }
}

/// Strength, agility, intelligence and armor that one tier of a class's armour gives.
pub open spec fn bonus_per_tier(class: PlayerClass) -> (int, int, int, int) {
    match class {
        PlayerClass::Warrior => (5, 0, 0, 12),
        PlayerClass::Rogue => (0, 6, 0, 6),
        PlayerClass::Mage => (0, 0, 8, 3),
    }
}

/// Name of a class's armour, before its tier number.
pub open spec fn loot_base_name(class: PlayerClass) -> Seq<char> {
    match class {
        PlayerClass::Warrior => "Vanguard Plate Armor T"@,
        PlayerClass::Rogue => "Shadow-Stalker Vest T"@,
        PlayerClass::Mage => "Archmage Robe T"@,
    }
}

impl Item {
    /// The armour of the player's class for the given wave.
    pub fn generate_loot(player_class: PlayerClass, wave: u32) -> (item: Self)
        requires
            loot_tier(wave) * price_per_tier(player_class) <= u32::MAX,
        ensures
            item.name@ == loot_base_name(player_class) + decimal(loot_tier(wave) as nat),
            item.class_restriction == player_class,
            item.strength_bonus == loot_tier(wave) * bonus_per_tier(player_class).0,
            item.agility_bonus == loot_tier(wave) * bonus_per_tier(player_class).1,
            item.intelligence_bonus == loot_tier(wave) * bonus_per_tier(player_class).2,
            item.armor_bonus == loot_tier(wave) * bonus_per_tier(player_class).3,
            item.price == loot_tier(wave) * price_per_tier(player_class),
    {
        let tier: u32 = (wave / 3) + 1;
        match player_class {
            PlayerClass::Warrior => Item {
                name: numbered("Vanguard Plate Armor T", tier as u64),
                class_restriction: PlayerClass::Warrior,
                strength_bonus: tier * 5,
                agility_bonus: 0,
                intelligence_bonus: 0,
                armor_bonus: tier * 12,
                price: tier * 40,
            },
            PlayerClass::Rogue => Item {
                name: numbered("Shadow-Stalker Vest T", tier as u64),
                class_restriction: PlayerClass::Rogue,
                strength_bonus: 0,
                agility_bonus: tier * 6,
                intelligence_bonus: 0,
                armor_bonus: tier * 6,
                price: tier * 45,
            },
            PlayerClass::Mage => Item {
                name: numbered("Archmage Robe T", tier as u64),
                class_restriction: PlayerClass::Mage,
                strength_bonus: 0,
                agility_bonus: 0,
                intelligence_bonus: tier * 8,
                armor_bonus: tier * 3,
                price: tier * 50,
            },
        }
    }
}

} // verus!
