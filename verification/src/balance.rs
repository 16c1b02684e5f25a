//! The game's numbers, as its players know them: what each class starts with and gains,
//! what its armour gives, how elements are named and how long spells wait.
use vstd::prelude::*;
use crate::inventory::{bonus_per_tier, loot_base_name, loot_tier, price_per_tier};
use crate::mechanics::{
    block_change, element_named, spec_base_attributes, spec_base_hp, spec_base_mana,
    spec_level_up_gains, spell_cooldown, Attributes, BlockChange, PlayerClass, PlayerSpec,
    WeaponStyle,
};
use crate::talents::MageElement;

verus! {

/// The class a specialisation belongs to.
pub open spec fn class_of(spec: PlayerSpec) -> PlayerClass {
    match spec {
        PlayerSpec::WarriorDPS | PlayerSpec::WarriorTank => PlayerClass::Warrior,
        PlayerSpec::RogueAssassin | PlayerSpec::RogueDuelist => PlayerClass::Rogue,
        PlayerSpec::MageHealer | PlayerSpec::MageElemental => PlayerClass::Mage,
    }
}

/// The attribute a class lives by, read out of a set of attributes: a warrior's
/// strength, a rogue's agility, a mage's intelligence.
pub open spec fn main_attribute(class: PlayerClass, a: Attributes) -> int {
    match class {
        PlayerClass::Warrior => a.strength as int,
        PlayerClass::Rogue => a.agility as int,
        PlayerClass::Mage => a.intelligence as int,
    }
}

/// The starting attributes of each specialisation: Warrior DPS 30/18/15, Warrior Tank
/// 32/15/15, Rogue Assassin 20/35/10, Rogue Duelist 18/30/12, Mage Healer 15/8/40 and
/// Mage Elemental 10/8/45 (strength/agility/intelligence). A specialisation is strongest
/// in its class's main attribute.
pub proof fn lemma_starting_attributes(spec: PlayerSpec)
    ensures
        spec_base_attributes(PlayerSpec::WarriorDPS) == (Attributes { strength: 30, agility: 18, intelligence: 15 }),
        spec_base_attributes(PlayerSpec::WarriorTank) == (Attributes { strength: 32, agility: 15, intelligence: 15 }),
        spec_base_attributes(PlayerSpec::RogueAssassin) == (Attributes { strength: 20, agility: 35, intelligence: 10 }),
        spec_base_attributes(PlayerSpec::RogueDuelist) == (Attributes { strength: 18, agility: 30, intelligence: 12 }),
        spec_base_attributes(PlayerSpec::MageHealer) == (Attributes { strength: 15, agility: 8, intelligence: 40 }),
        spec_base_attributes(PlayerSpec::MageElemental) == (Attributes { strength: 10, agility: 8, intelligence: 45 }),
        main_attribute(class_of(spec), spec_base_attributes(spec)) > spec_base_attributes(spec).strength
            || class_of(spec) == PlayerClass::Warrior,
        main_attribute(class_of(spec), spec_base_attributes(spec)) > spec_base_attributes(spec).agility
            || class_of(spec) == PlayerClass::Rogue,
        main_attribute(class_of(spec), spec_base_attributes(spec)) > spec_base_attributes(spec).intelligence
            || class_of(spec) == PlayerClass::Mage,
{
}

/// A level up gives three points in the class's main attribute and one in each other;
/// a warrior starts with 150 hit points and 50 mana, a rogue with 100 and 70, a mage
/// with 80 and 150, before attributes count: warriors have the most hit points and mages
/// the most mana.
pub proof fn lemma_class_growth(class: PlayerClass)
    ensures
        main_attribute(class, spec_level_up_gains(class)) == 3,
        spec_level_up_gains(class).strength + spec_level_up_gains(class).agility
            + spec_level_up_gains(class).intelligence == 5,
        spec_base_hp(PlayerClass::Warrior) == 150,
        spec_base_hp(PlayerClass::Rogue) == 100,
        spec_base_hp(PlayerClass::Mage) == 80,
        spec_base_mana(PlayerClass::Warrior) == 50,
        spec_base_mana(PlayerClass::Rogue) == 70,
        spec_base_mana(PlayerClass::Mage) == 150,
        spec_base_hp(class) <= spec_base_hp(PlayerClass::Warrior),
        spec_base_mana(class) <= spec_base_mana(PlayerClass::Mage),
{
}

/// One tier of class armour raises the class's main attribute and no other, with some
/// armor: a warrior's plate 5 strength and 12 armor for 40 gold, a rogue's vest 6
/// agility and 6 armor for 45, a mage's robe 8 intelligence and 3 armor for 50.
pub proof fn lemma_armour_per_tier(class: PlayerClass)
    ensures
        bonus_per_tier(PlayerClass::Warrior) == (5int, 0int, 0int, 12int),
        bonus_per_tier(PlayerClass::Rogue) == (0int, 6int, 0int, 6int),
        bonus_per_tier(PlayerClass::Mage) == (0int, 0int, 8int, 3int),
        price_per_tier(PlayerClass::Warrior) == 40,
        price_per_tier(PlayerClass::Rogue) == 45,
        price_per_tier(PlayerClass::Mage) == 50,
        (bonus_per_tier(class).0 > 0) == (class == PlayerClass::Warrior),
        (bonus_per_tier(class).1 > 0) == (class == PlayerClass::Rogue),
        (bonus_per_tier(class).2 > 0) == (class == PlayerClass::Mage),
        bonus_per_tier(class).3 > 0,
{
}

/// Loot starts at tier one and gains a tier every three waves; the armour is a
/// warrior's "Vanguard Plate Armor T", a rogue's "Shadow-Stalker Vest T" and a mage's
/// "Archmage Robe T", followed by its tier.
pub proof fn lemma_loot_tiers(wave: u32)
    ensures
        wave < 3 ==> loot_tier(wave) == 1,
        wave + 3 <= u32::MAX ==> loot_tier((wave + 3) as u32) == loot_tier(wave) + 1,
        loot_base_name(PlayerClass::Warrior) == "Vanguard Plate Armor T"@,
        loot_base_name(PlayerClass::Rogue) == "Shadow-Stalker Vest T"@,
        loot_base_name(PlayerClass::Mage) == "Archmage Robe T"@,
{
}

/// The four elements answer to their names in lowercase, "void", "fire", "ice" and
/// "poison", and to no other.
pub proof fn lemma_element_names(s: Seq<char>)
    ensures
        element_named("void"@) == Some(MageElement::Void),
        element_named("fire"@) == Some(MageElement::Fire),
        element_named("ice"@) == Some(MageElement::Ice),
        element_named("poison"@) == Some(MageElement::Poison),
        element_named(s) is Some ==> s == "void"@ || s == "fire"@ || s == "ice"@ || s == "poison"@,
{
    reveal_strlit("void");
    reveal_strlit("fire");
    reveal_strlit("ice");
    reveal_strlit("poison");
    assert("fire"@[0] != "void"@[0]);
    assert("ice"@.len() != "void"@.len());
    assert("ice"@.len() != "fire"@.len());
    assert("poison"@.len() != "void"@.len());
    assert("poison"@.len() != "fire"@.len());
    assert("poison"@.len() != "ice"@.len());
}

/// Frostbolt waits three turns once cast, Ice Lance one, and no other ability waits.
pub proof fn lemma_spell_cooldowns(name: Seq<char>)
    ensures
        spell_cooldown("frostbolt"@) == 3,
        spell_cooldown("ice_lance"@) == 1,
        spell_cooldown(name) > 0 ==> name == "frostbolt"@ || name == "ice_lance"@,
{
    reveal_strlit("frostbolt");
    reveal_strlit("ice_lance");
    assert("frostbolt"@[0] != "ice_lance"@[0]);
}

/// Taking up a shield gives a 15% block chance and a block value of 8; putting it away
/// takes both; a change between two-handed styles changes nothing.
pub proof fn lemma_shield_block(old: WeaponStyle, new: WeaponStyle)
    ensures
        new == WeaponStyle::OneHandedShield ==> block_change(old, new) == (BlockChange::Equipped { chance_percent: 15, value: 8 }),
        new != WeaponStyle::OneHandedShield && old == WeaponStyle::OneHandedShield ==> block_change(old, new) == BlockChange::Removed,
        new != WeaponStyle::OneHandedShield && old != WeaponStyle::OneHandedShield ==> block_change(old, new) == BlockChange::Unchanged,
{
}

} // verus!
