//! Classes, specialisations, ability costs and the progression side of a player:
//! level, talent points, talents, gold and cooldowns.
use vstd::prelude::*;
use crate::chance::{gen_range_inclusive, thread_rng};
use crate::cooldowns::{Cooldowns, turn_passed};
use crate::talents::{
    ElementalDpsTree, FireBranch, IceBranch, MageElement, MageTalents, PlayerTalentTree,
    PoisonBranch, RogueTalents, VoidBranch, WarriorTalents,
};
use crate::text::{list_contains, lowercase, same_text, texts, to_lowercase};

verus! {

#[derive(Debug, Clone, Copy, PartialEq, Eq, Structural)]
pub enum PlayerClass {
    Warrior,
    Rogue,
    Mage,
}

#[derive(Debug, Clone, Copy, PartialEq, Eq, Structural)]
pub enum WeaponStyle {
    TwoHanded,
    OneHandedShield,
}

#[derive(Debug, Clone, Copy, PartialEq, Eq, Structural)]
pub enum PlayerSpec {
    WarriorDPS,
    WarriorTank,
    RogueAssassin,
    RogueDuelist,
    MageHealer,
    MageElemental,
}

/// A permanent bonus to one statistic. Attribute, pool, armor, block and regeneration
/// bonuses are counted in whole points; crit and block chances in percentage points
/// (`AddCritChance(10)` is +10%).
#[derive(Debug, Clone, Copy, PartialEq, Eq, Structural)]
pub enum StatModifier {
    AddStrength(u32),
    AddAgility(u32),
    AddIntelligence(u32),
    AddMaxHp(u32),
    AddMaxMana(u32),
    AddArmor(u32),
    AddBlockChance(u32),
    AddBlockValue(u32),
    AddCritChance(u32),
    AddHpRegen(u32),
    AddManaRegen(u32),
    NoEffect,
}

/// The three primary attributes.
#[derive(Debug, Clone, Copy, PartialEq, Eq, Structural)]
pub struct Attributes {
    pub strength: u32,
    pub agility: u32,
    pub intelligence: u32,
}

/// Starting attributes of each specialisation.
pub open spec fn spec_base_attributes(spec: PlayerSpec) -> Attributes {
    match spec {
        PlayerSpec::WarriorDPS => Attributes { strength: 30, agility: 18, intelligence: 15 },
        PlayerSpec::WarriorTank => Attributes { strength: 32, agility: 15, intelligence: 15 },
        PlayerSpec::RogueAssassin => Attributes { strength: 20, agility: 35, intelligence: 10 },
        PlayerSpec::RogueDuelist => Attributes { strength: 18, agility: 30, intelligence: 12 },
        PlayerSpec::MageHealer => Attributes { strength: 15, agility: 8, intelligence: 40 },
        PlayerSpec::MageElemental => Attributes { strength: 10, agility: 8, intelligence: 45 },
    }
}

/// Starting attributes of each specialisation.
pub fn base_attributes(spec: PlayerSpec) -> (a: Attributes)
    ensures
        a == spec_base_attributes(spec),
{
    match spec {
        PlayerSpec::WarriorDPS => Attributes { strength: 30, agility: 18, intelligence: 15 },
        PlayerSpec::WarriorTank => Attributes { strength: 32, agility: 15, intelligence: 15 },
        PlayerSpec::RogueAssassin => Attributes { strength: 20, agility: 35, intelligence: 10 },
        PlayerSpec::RogueDuelist => Attributes { strength: 18, agility: 30, intelligence: 12 },
        PlayerSpec::MageHealer => Attributes { strength: 15, agility: 8, intelligence: 40 },
        PlayerSpec::MageElemental => Attributes { strength: 10, agility: 8, intelligence: 45 },
    }
}

/// Attributes gained on each level up: three points in the class's main attribute,
/// one in each of the others.
pub open spec fn spec_level_up_gains(class: PlayerClass) -> Attributes {
    match class {
        PlayerClass::Warrior => Attributes { strength: 3, agility: 1, intelligence: 1 },
        PlayerClass::Rogue => Attributes { strength: 1, agility: 3, intelligence: 1 },
        PlayerClass::Mage => Attributes { strength: 1, agility: 1, intelligence: 3 },
    }
}

pub fn level_up_gains(class: PlayerClass) -> (a: Attributes)
    ensures
        a == spec_level_up_gains(class),
{
    match class {
        PlayerClass::Warrior => Attributes { strength: 3, agility: 1, intelligence: 1 },
        PlayerClass::Rogue => Attributes { strength: 1, agility: 3, intelligence: 1 },
        PlayerClass::Mage => Attributes { strength: 1, agility: 1, intelligence: 3 },
    }
}

/// Hit points of a class before strength is counted.
pub open spec fn spec_base_hp(class: PlayerClass) -> u32 {
    match class {
        PlayerClass::Warrior => 150,
        PlayerClass::Rogue => 100,
        PlayerClass::Mage => 80,
    }
}

pub fn base_hp(class: PlayerClass) -> (hp: u32)
    ensures
        hp == spec_base_hp(class),
{
    match class {
        PlayerClass::Warrior => 150,
        PlayerClass::Rogue => 100,
        PlayerClass::Mage => 80,
    }
}

/// Mana of a class before intelligence is counted.
pub open spec fn spec_base_mana(class: PlayerClass) -> u32 {
    match class {
        PlayerClass::Warrior => 50,
        PlayerClass::Rogue => 70,
        PlayerClass::Mage => 150,
    }
}

pub fn base_mana(class: PlayerClass) -> (mana: u32)
    ensures
        mana == spec_base_mana(class),
{
    match class {
        PlayerClass::Warrior => 50,
        PlayerClass::Rogue => 70,
        PlayerClass::Mage => 150,
    }
}

/// Mana an ability costs; abilities not listed (basic attack, passives, reactions,
/// unknown names) are free.
pub open spec fn ability_mana_cost(ability: Seq<char>) -> u32 {
    if ability == "taunt"@ { 10 }
    else if ability == "executioner"@ { 20 }
    else if ability == "shadow_step"@ { 15 }
    else if ability == "holy_heal"@ { 30 }
    else if ability == "holy_shield"@ { 35 }
    else if ability == "resurrection"@ { 150 }
    else if ability == "frostbolt"@ { 20 }
    else if ability == "deep_freeze"@ { 25 }
    else if ability == "ice_lance"@ { 15 }
    else if ability == "blizzard"@ { 70 }
    else if ability == "fireball"@ { 25 }
    else if ability == "ignite"@ { 15 }
    else if ability == "firestorm"@ { 70 }
    else if ability == "void_bolt"@ { 18 }
    else if ability == "reality_fracture"@ { 30 }
    else if ability == "void_drain"@ { 22 }
    else if ability == "null_field"@ { 28 }
    else if ability == "venom_strike"@ { 12 }
    else if ability == "toxic_cloud"@ { 20 }
    else if ability == "weaken"@ { 18 }
    else { 0 }
}

/// Mana cost of an ability, by name.
pub fn mana_cost(ability: &str) -> (cost: u32)
    ensures
        cost == ability_mana_cost(ability@),
{
    if same_text(ability, "taunt") { 10 }
    else if same_text(ability, "executioner") { 20 }
    else if same_text(ability, "shadow_step") { 15 }
    else if same_text(ability, "holy_heal") { 30 }
    else if same_text(ability, "holy_shield") { 35 }
    else if same_text(ability, "resurrection") { 150 }
    else if same_text(ability, "frostbolt") { 20 }
    else if same_text(ability, "deep_freeze") { 25 }
    else if same_text(ability, "ice_lance") { 15 }
    else if same_text(ability, "blizzard") { 70 }
    else if same_text(ability, "fireball") { 25 }
    else if same_text(ability, "ignite") { 15 }
    else if same_text(ability, "firestorm") { 70 }
    else if same_text(ability, "void_bolt") { 18 }
    else if same_text(ability, "reality_fracture") { 30 }
    else if same_text(ability, "void_drain") { 22 }
    else if same_text(ability, "null_field") { 28 }
    else if same_text(ability, "venom_strike") { 12 }
    else if same_text(ability, "toxic_cloud") { 20 }
    else if same_text(ability, "weaken") { 18 }
    else { 0 }
}

/// The progression of a player: everything but the numeric combat statistics.
pub struct Player {
    pub name: String,
    pub level: u32,
    pub talent_points: u32,
    pub class: PlayerClass,
    pub weapon_style: WeaponStyle,
    pub talents: PlayerTalentTree,
    pub gold: u32,
    pub cooldowns: Cooldowns,
    pub spec: PlayerSpec,
}

/// A talent tree of the class's own kind in which nothing has been learnt.
pub open spec fn fresh_talents(t: PlayerTalentTree, class: PlayerClass) -> bool {
    match class {
        PlayerClass::Warrior => t matches PlayerTalentTree::Warrior(w) && w.is_fresh(),
        PlayerClass::Rogue => t matches PlayerTalentTree::Rogue(r) && r.is_fresh(),
        PlayerClass::Mage => t matches PlayerTalentTree::Mage(m) && m.is_fresh(),
    }
}

/// The talent tree a new player of a class starts with.
pub open spec fn starting_talents(class: PlayerClass) -> PlayerTalentTree {
    match class {
        PlayerClass::Warrior => PlayerTalentTree::Warrior(WarriorTalents {
            iron_fortress_lvl: 0,
            arcane_barrier_lvl: 0,
            ironwill_lvl: 0,
            taunt_unlocked: false,
            true_bulwark_unlocked: false,
            berserker_crit_lvl: 0,
            true_strike_unlocked: false,
            war_fury_lvl: 0,
            executioner_lvl: 0,
            undying_rage_unlocked: false,
        }),
        PlayerClass::Rogue => PlayerTalentTree::Rogue(RogueTalents {
            quickblade_lvl: 0,
            flurry_blades_lvl: 0,
            armor_breach_lvl: 0,
            resistance_shred_lvl: 0,
            shadow_step_unlocked: false,
            thousand_cuts_unlocked: false,
            parry_lvl: 0,
            counter_attack_lvl: 0,
            evasion_arts_lvl: 0,
            blade_dance_lvl: 0,
            perfect_defense_unlocked: false,
        }),
        PlayerClass::Mage => PlayerTalentTree::Mage(MageTalents {
            holy_shield: 0,
            aura_of_resilience: 0,
            class_synergy: 0,
            holy_heal: 0,
            resurrection: 0,
            heal_amplification: 0,
            dps_tree: None,
        }),
    }
}

/// Talents after a mage picks the element named `element` (any letter case); other
/// talents, and unknown names, are left as they are.
pub open spec fn talents_with_element(t: PlayerTalentTree, element: Seq<char>) -> PlayerTalentTree {
    match t {
        PlayerTalentTree::Mage(m) => match element_named(lowercase(element)) {
            Some(e) => PlayerTalentTree::Mage(MageTalents { dps_tree: Some(ElementalDpsTree::fresh(e)), ..m }),
            None => t,
        },
        _ => t,
    }
}

/// The first talent each physical specialisation is handed at creation.
pub open spec fn with_spec_talent(t: PlayerTalentTree, spec: PlayerSpec) -> PlayerTalentTree {
    match (spec, t) {
        (PlayerSpec::RogueAssassin, PlayerTalentTree::Rogue(r)) => PlayerTalentTree::Rogue(RogueTalents { flurry_blades_lvl: 1, ..r }),
        (PlayerSpec::WarriorDPS, PlayerTalentTree::Warrior(w)) => PlayerTalentTree::Warrior(WarriorTalents { war_fury_lvl: 1, ..w }),
        (PlayerSpec::WarriorTank, PlayerTalentTree::Warrior(w)) => PlayerTalentTree::Warrior(WarriorTalents { taunt_unlocked: true, ..w }),
        _ => t,
    }
}

/// `name`, when `cond` holds; nothing otherwise.
pub open spec fn listed_if(cond: bool, name: Seq<char>) -> Seq<Seq<char>> {
    if cond { seq![name] } else { Seq::empty() }
}

/// Abilities a talent tree gives access to, in the order they are offered: the basic
/// attack first, then the ones unlocked by talents.
pub open spec fn available_abilities(t: PlayerTalentTree) -> Seq<Seq<char>> {
    seq!["basic_attack"@] + match t {
        PlayerTalentTree::Warrior(w) => listed_if(w.taunt_unlocked, "taunt"@) + listed_if(
            w.war_fury_lvl > 0,
            "war_fury"@,
        ) + listed_if(w.executioner_lvl > 0, "executioner"@),
        PlayerTalentTree::Rogue(r) => listed_if(r.shadow_step_unlocked, "shadow_step"@)
            + listed_if(r.counter_attack_lvl > 0, "counter_attack"@),
        PlayerTalentTree::Mage(m) => listed_if(m.holy_heal > 0, "holy_heal"@) + match m.dps_tree {
            None => Seq::empty(),
            Some(ElementalDpsTree::Ice(i)) => listed_if(i.frostbolt > 0, "frostbolt"@) + listed_if(
                i.deep_freeze > 0,
                "deep_freeze"@,
            ) + listed_if(i.ice_lance > 0, "ice_lance"@),
            Some(ElementalDpsTree::Fire(f)) => listed_if(f.fireball > 0, "fireball"@) + listed_if(
                f.ignite > 0,
                "ignite"@,
            ),
            Some(ElementalDpsTree::Void(v)) => listed_if(v.void_bolt > 0, "void_bolt"@) + listed_if(
                v.void_drain > 0,
                "void_drain"@,
            ),
            Some(ElementalDpsTree::Poison(p)) => listed_if(p.venom_strike > 0, "venom_strike"@)
                + listed_if(p.toxic_cloud > 0, "toxic_cloud"@),
        },
    }
}

/// The ice branch of a mage who has chosen ice.
pub open spec fn ice_branch(t: PlayerTalentTree) -> Option<IceBranch> {
    match t {
        PlayerTalentTree::Mage(m) => match m.dps_tree {
            Some(ElementalDpsTree::Ice(i)) => Some(i),
            _ => None,
        },
        _ => None,
    }
}

/// A rogue who has learnt Flurry of Blades.
pub open spec fn has_flurry(t: PlayerTalentTree) -> bool {
    t matches PlayerTalentTree::Rogue(r) && r.flurry_blades_lvl > 0
}

/// Why an ability was not used.
#[derive(Debug, Clone, Copy, PartialEq, Eq, Structural)]
pub enum AbilityRefusal {
    /// The talents do not give access to it.
    NotAvailable,
    /// Still on cooldown for this many turns.
    OnCooldown(u32),
    /// The player's mana does not cover its cost.
    NotEnoughMana,
}

/// How a basic attack strikes.
#[derive(Debug, Clone, Copy, PartialEq, Eq, Structural)]
pub enum BasicAttack {
    /// Flurry of Blades: `hits` strikes at 60% of base damage each.
    Flurry { hits: u32 },
    /// One strike at full base damage, then, with `extra_strike`, a quick strike at 50%.
    Strike { extra_strike: bool },
}

impl BasicAttack {
    /// The basic attack the dice give: with Flurry of Blades, `hits_roll` strikes;
    /// otherwise one strike, and a quick extra strike when `strike_roll` does not
    /// exceed `extra_strike_chance`.
    pub fn from_rolls(flurry: bool, hits_roll: u32, strike_roll: u32, extra_strike_chance: u32) -> (b: BasicAttack)
        ensures
            b == (if flurry {
                BasicAttack::Flurry { hits: hits_roll }
            } else {
                BasicAttack::Strike { extra_strike: strike_roll <= extra_strike_chance }
            }),
    {
        if flurry {
            BasicAttack::Flurry { hits: hits_roll }
        } else {
            BasicAttack::Strike { extra_strike: strike_roll <= extra_strike_chance }
        }
    }
}

/// What a used ability does to the enemy.
#[derive(Debug, Clone, Copy, PartialEq, Eq, Structural)]
pub enum AbilityEffect {
    BasicAttack(BasicAttack),
    /// Frostbolt of the given rank: damage, then the enemy is frozen.
    Frostbolt { rank: u32 },
    /// Ice Lance of the given rank: damage, doubled on a frozen enemy, which thaws.
    IceLance { rank: u32 },
    /// An ice spell cast without an ice branch: nothing happens.
    Fizzled,
    /// The ability has no combat effect yet.
    NotImplemented,
}

/// The result of trying to use an ability.
#[derive(Debug, Clone, Copy, PartialEq, Eq, Structural)]
pub enum AbilityOutcome {
    Refused(AbilityRefusal),
    Performed { mana_spent: u32, effect: AbilityEffect },
}

/// The effects an ability may have, given the talents: exact but for the dice of a
/// basic attack, of which every outcome is admitted.
pub open spec fn ability_effect_ok(
    t: PlayerTalentTree,
    name: Seq<char>,
    extra_strike_chance: u32,
    e: AbilityEffect,
) -> bool {
    if name == "basic_attack"@ {
        match e {
            AbilityEffect::BasicAttack(BasicAttack::Flurry { hits }) => has_flurry(t) && 3 <= hits
                <= 5,
            AbilityEffect::BasicAttack(BasicAttack::Strike { extra_strike }) => {
                &&& !has_flurry(t)
                &&& extra_strike ==> 1 <= extra_strike_chance
                &&& !extra_strike ==> extra_strike_chance < 100
            },
            _ => false,
        }
    } else if name == "frostbolt"@ {
        e == match ice_branch(t) {
            Some(i) => AbilityEffect::Frostbolt { rank: i.frostbolt },
            None => AbilityEffect::Fizzled,
        }
    } else if name == "ice_lance"@ {
        e == match ice_branch(t) {
            Some(i) => AbilityEffect::IceLance { rank: i.ice_lance },
            None => AbilityEffect::Fizzled,
        }
    } else {
        e == AbilityEffect::NotImplemented
    }
}

/// The turns an ice spell waits once cast: Frostbolt three, Ice Lance one.
pub open spec fn spell_cooldown(name: Seq<char>) -> u32 {
    if name == "frostbolt"@ {
        3
    } else if name == "ice_lance"@ {
        1
    } else {
        0
    }
}

/// Cooldowns after an ability has been used: an ice spell goes on its cooldown.
pub open spec fn cooldowns_after_use(c: Map<Seq<char>, u32>, name: Seq<char>) -> Map<Seq<char>, u32> {
    if name == "frostbolt"@ || name == "ice_lance"@ {
        c.insert(name, spell_cooldown(name))
    } else {
        c
    }
}

/// `after` is `before` one level up, with one more talent point.
pub open spec fn leveled_up(before: Player, after: Player) -> bool {
    &&& after.level == before.level + 1
    &&& after.talent_points == before.talent_points + 1
    &&& after.name == before.name
    &&& after.class == before.class
    &&& after.weapon_style == before.weapon_style
    &&& after.talents == before.talents
    &&& after.gold == before.gold
    &&& after.cooldowns == before.cooldowns
    &&& after.spec == before.spec
}

/// Two players agree on everything but their talents.
pub open spec fn same_but_talents(a: Player, b: Player) -> bool {
    &&& a.name == b.name
    &&& a.level == b.level
    &&& a.talent_points == b.talent_points
    &&& a.class == b.class
    &&& a.weapon_style == b.weapon_style
    &&& a.gold == b.gold
    &&& a.spec == b.spec
}

/// Two players agree on everything but their cooldowns.
pub open spec fn same_but_cooldowns(a: Player, b: Player) -> bool {
    &&& a.name == b.name
    &&& a.level == b.level
    &&& a.talent_points == b.talent_points
    &&& a.class == b.class
    &&& a.weapon_style == b.weapon_style
    &&& a.talents == b.talents
    &&& a.gold == b.gold
    &&& a.spec == b.spec
}

/// The outcome of using `name`, and the cooldowns that follow, as `use_ability` decides
/// them: availability first, then the cooldown, then the mana.
pub open spec fn ability_use_ok(
    before: Player,
    after: Player,
    name: Seq<char>,
    mana_covers_cost: bool,
    extra_strike_chance: u32,
    outcome: AbilityOutcome,
) -> bool {
    if !available_abilities(before.talents).contains(name) {
        outcome == AbilityOutcome::Refused(AbilityRefusal::NotAvailable) && after == before
    } else if before.cooldowns@.contains_key(name) && before.cooldowns@[name] > 0 {
        outcome == AbilityOutcome::Refused(AbilityRefusal::OnCooldown(before.cooldowns@[name]))
            && after == before
    } else if !mana_covers_cost {
        outcome == AbilityOutcome::Refused(AbilityRefusal::NotEnoughMana) && after == before
    } else {
        &&& outcome matches AbilityOutcome::Performed { mana_spent, effect }
        &&& mana_spent == ability_mana_cost(name)
        &&& ability_effect_ok(before.talents, name, extra_strike_chance, effect)
        &&& same_but_cooldowns(after, before)
        &&& after.cooldowns@ == cooldowns_after_use(before.cooldowns@, name)
    }
}

/// What a change of weapon style does to blocking.
#[derive(Debug, Clone, Copy, PartialEq, Eq, Structural)]
pub enum BlockChange {
    /// Blocking stays as it was.
    Unchanged,
    /// The shield is put away: no block chance, no block value.
    Removed,
    /// A shield is taken up: the base block chance, in percent, and block value.
    Equipped { chance_percent: u32, value: u32 },
}

/// The block a change from `old` to `new` weapon style leads to.
pub open spec fn block_change(old: WeaponStyle, new: WeaponStyle) -> BlockChange {
    if new == WeaponStyle::OneHandedShield {
        BlockChange::Equipped { chance_percent: 15, value: 8 }
    } else if old == WeaponStyle::OneHandedShield {
        BlockChange::Removed
    } else {
        BlockChange::Unchanged
    }
}

/// The result of casting an elemental spell.
#[derive(Debug, Clone, Copy, PartialEq, Eq, Structural)]
pub enum SpellCast {
    NotMage,
    NoElementalSpec,
    /// The spell belongs to the branch but has rank zero.
    NotUnlocked,
    Frostbolt { rank: u32 },
    IceLance { rank: u32 },
    /// Fireball of the given rank: damage, then the enemy burns for three turns.
    Fireball { rank: u32 },
    /// The spell is not one this branch can cast.
    NotInBranch(MageElement),
    /// The branch has no combat spells yet.
    NotImplemented(MageElement),
}

/// What casting `spell` with the given talents gives.
pub open spec fn spell_cast(t: PlayerTalentTree, spell: Seq<char>) -> SpellCast {
    match t {
        PlayerTalentTree::Mage(m) => match m.dps_tree {
            Some(ElementalDpsTree::Ice(i)) => if spell == "frostbolt"@ {
                if i.frostbolt == 0 { SpellCast::NotUnlocked } else { SpellCast::Frostbolt { rank: i.frostbolt } }
            } else if spell == "ice_lance"@ {
                if i.ice_lance == 0 { SpellCast::NotUnlocked } else { SpellCast::IceLance { rank: i.ice_lance } }
            } else {
                SpellCast::NotInBranch(MageElement::Ice)
            },
            Some(ElementalDpsTree::Fire(f)) => if spell == "fireball"@ {
                if f.fireball == 0 { SpellCast::NotUnlocked } else { SpellCast::Fireball { rank: f.fireball } }
            } else {
                SpellCast::NotInBranch(MageElement::Fire)
            },
            Some(ElementalDpsTree::Void(_)) => SpellCast::NotImplemented(MageElement::Void),
            Some(ElementalDpsTree::Poison(_)) => SpellCast::NotImplemented(MageElement::Poison),
            None => SpellCast::NoElementalSpec,
        },
        _ => SpellCast::NotMage,
    }
}

/// The element a (lowercase) name stands for.
pub open spec fn element_named(s: Seq<char>) -> Option<MageElement> {
    if s == "void"@ {
        Some(MageElement::Void)
    } else if s == "fire"@ {
        Some(MageElement::Fire)
    } else if s == "ice"@ {
        Some(MageElement::Ice)
    } else if s == "poison"@ {
        Some(MageElement::Poison)
    } else {
        None
    }
}

/// The result of choosing an elemental specialisation.
#[derive(Debug, Clone, Copy, PartialEq, Eq, Structural)]
pub enum SpecChoice {
    Chosen(MageElement),
    InvalidElement,
    NotMage,
}

/// The outcome of a player choosing the element named (in lowercase) `lowered`: a mage
/// takes a fresh branch of a known element; anything else leaves the player unchanged.
pub open spec fn elemental_choice_ok(before: Player, after: Player, lowered: Seq<char>, choice: SpecChoice) -> bool {
    match before.talents {
        PlayerTalentTree::Mage(m) => match element_named(lowered) {
            Some(e) => {
                &&& choice == SpecChoice::Chosen(e)
                &&& after.talents == PlayerTalentTree::Mage(
                    MageTalents { dps_tree: Some(ElementalDpsTree::fresh(e)), ..m },
                )
                &&& after.cooldowns == before.cooldowns
                &&& same_but_talents(after, before)
            },
            None => choice == SpecChoice::InvalidElement && after == before,
        },
        _ => choice == SpecChoice::NotMage && after == before,
    }
}

/// The result of spending a talent point in the elemental branch.
#[derive(Debug, Clone, Copy, PartialEq, Eq, Structural)]
pub enum TalentUpgrade {
    Upgraded,
    NoTalentPoints,
    NotMage,
    NoElementalSpec,
    /// The branch of this element has no talent of that name.
    UnknownTalent(MageElement),
}

/// Rank of the talent `name` in an elemental branch, if the branch has a talent of that
/// name that can be learnt.
pub open spec fn branch_rank(tree: ElementalDpsTree, name: Seq<char>) -> Option<u32> {
    match tree {
        ElementalDpsTree::Ice(i) => if name == "frostbolt"@ {
            Some(i.frostbolt)
        } else if name == "deep_freeze"@ {
            Some(i.deep_freeze)
        } else if name == "ice_lance"@ {
            Some(i.ice_lance)
        } else {
            None
        },
        ElementalDpsTree::Fire(f) => if name == "fireball"@ {
            Some(f.fireball)
        } else if name == "ignite"@ {
            Some(f.ignite)
        } else {
            None
        },
        ElementalDpsTree::Void(v) => if name == "void_bolt"@ {
            Some(v.void_bolt)
        } else if name == "void_drain"@ {
            Some(v.void_drain)
        } else {
            None
        },
        ElementalDpsTree::Poison(p) => if name == "venom_strike"@ {
            Some(p.venom_strike)
        } else if name == "toxic_cloud"@ {
            Some(p.toxic_cloud)
        } else {
            None
        },
    }
}

/// The branch with the talent `name` one rank higher.
pub open spec fn branch_raised(tree: ElementalDpsTree, name: Seq<char>) -> ElementalDpsTree {
    match tree {
        ElementalDpsTree::Ice(i) => if name == "frostbolt"@ {
            ElementalDpsTree::Ice(IceBranch { frostbolt: (i.frostbolt + 1) as u32, ..i })
        } else if name == "deep_freeze"@ {
            ElementalDpsTree::Ice(IceBranch { deep_freeze: (i.deep_freeze + 1) as u32, ..i })
        } else {
            ElementalDpsTree::Ice(IceBranch { ice_lance: (i.ice_lance + 1) as u32, ..i })
        },
        ElementalDpsTree::Fire(f) => if name == "fireball"@ {
            ElementalDpsTree::Fire(FireBranch { fireball: (f.fireball + 1) as u32, ..f })
        } else {
            ElementalDpsTree::Fire(FireBranch { ignite: (f.ignite + 1) as u32, ..f })
        },
        ElementalDpsTree::Void(v) => if name == "void_bolt"@ {
            ElementalDpsTree::Void(VoidBranch { void_bolt: (v.void_bolt + 1) as u32, ..v })
        } else {
            ElementalDpsTree::Void(VoidBranch { void_drain: (v.void_drain + 1) as u32, ..v })
        },
        ElementalDpsTree::Poison(p) => if name == "venom_strike"@ {
            ElementalDpsTree::Poison(PoisonBranch { venom_strike: (p.venom_strike + 1) as u32, ..p })
        } else {
            ElementalDpsTree::Poison(PoisonBranch { toxic_cloud: (p.toxic_cloud + 1) as u32, ..p })
        },
    }
}

/// Rank of the elemental talent `name` of a mage who has chosen a branch.
pub open spec fn named_rank(t: PlayerTalentTree, name: Seq<char>) -> Option<u32> {
    match t {
        PlayerTalentTree::Mage(m) => match m.dps_tree {
            Some(tree) => branch_rank(tree, name),
            None => None,
        },
        _ => None,
    }
}

/// The talents of an elemental branch that can be learnt, in the order they are offered.
pub open spec fn branch_talents(tree: ElementalDpsTree) -> Seq<Seq<char>> {
    match tree {
        ElementalDpsTree::Ice(_) => seq!["frostbolt"@, "deep_freeze"@, "ice_lance"@],
        ElementalDpsTree::Fire(_) => seq!["fireball"@, "ignite"@],
        ElementalDpsTree::Void(_) => seq!["void_bolt"@, "void_drain"@],
        ElementalDpsTree::Poison(_) => seq!["venom_strike"@, "toxic_cloud"@],
    }
}

/// The elemental talents a player can spend points on: those of a mage's chosen branch.
pub open spec fn talent_list(t: PlayerTalentTree) -> Seq<Seq<char>> {
    match t {
        PlayerTalentTree::Mage(m) => match m.dps_tree {
            Some(tree) => branch_talents(tree),
            None => Seq::empty(),
        },
        _ => Seq::empty(),
    }
}

/// Outcome, talent points and talents after spending a point on `name`.
pub open spec fn talent_upgrade(talent_points: u32, t: PlayerTalentTree, name: Seq<char>) -> (
    TalentUpgrade,
    u32,
    PlayerTalentTree,
) {
    if talent_points == 0 {
        (TalentUpgrade::NoTalentPoints, talent_points, t)
    } else {
        match t {
            PlayerTalentTree::Mage(m) => match m.dps_tree {
                Some(tree) => match branch_rank(tree, name) {
                    Some(_) => (
                        TalentUpgrade::Upgraded,
                        (talent_points - 1) as u32,
                        PlayerTalentTree::Mage(MageTalents { dps_tree: Some(branch_raised(tree, name)), ..m }),
                    ),
                    None => (TalentUpgrade::UnknownTalent(tree.element()), talent_points, t),
                },
                None => (TalentUpgrade::NoElementalSpec, talent_points, t),
            },
            _ => (TalentUpgrade::NotMage, talent_points, t),
        }
    }
}

/// Ranks spent in the elemental branch of a mage.
pub open spec fn elemental_ranks(t: PlayerTalentTree) -> int {
    match t {
        PlayerTalentTree::Mage(m) => match m.dps_tree {
            Some(tree) => tree.total_ranks(),
            None => 0,
        },
        _ => 0,
    }
}

/// The branch with the talent `name` one rank higher, or, when the branch has no talent
/// of that name, its element.
fn raise_branch(tree: &ElementalDpsTree, name: &str) -> (r: Result<ElementalDpsTree, MageElement>)
    requires
        branch_rank(*tree, name@) != Some(u32::MAX),
    ensures
        match branch_rank(*tree, name@) {
            Some(_) => r == Ok::<ElementalDpsTree, MageElement>(branch_raised(*tree, name@)),
            None => r == Err::<ElementalDpsTree, MageElement>(tree.element()),
        },
{
    match tree {
        ElementalDpsTree::Ice(i) => {
            if same_text(name, "frostbolt") {
                Ok(ElementalDpsTree::Ice(IceBranch { frostbolt: i.frostbolt + 1, deep_freeze: i.deep_freeze, ice_lance: i.ice_lance, shatter: i.shatter, blizzard: i.blizzard }))
            } else if same_text(name, "deep_freeze") {
                Ok(ElementalDpsTree::Ice(IceBranch { frostbolt: i.frostbolt, deep_freeze: i.deep_freeze + 1, ice_lance: i.ice_lance, shatter: i.shatter, blizzard: i.blizzard }))
            } else if same_text(name, "ice_lance") {
                Ok(ElementalDpsTree::Ice(IceBranch { frostbolt: i.frostbolt, deep_freeze: i.deep_freeze, ice_lance: i.ice_lance + 1, shatter: i.shatter, blizzard: i.blizzard }))
            } else {
                Err(MageElement::Ice)
            }
        },
        ElementalDpsTree::Fire(f) => {
            if same_text(name, "fireball") {
                Ok(ElementalDpsTree::Fire(FireBranch { fireball: f.fireball + 1, ignite: f.ignite, fire_mastery: f.fire_mastery, melt_armor: f.melt_armor, firestorm: f.firestorm }))
            } else if same_text(name, "ignite") {
                Ok(ElementalDpsTree::Fire(FireBranch { fireball: f.fireball, ignite: f.ignite + 1, fire_mastery: f.fire_mastery, melt_armor: f.melt_armor, firestorm: f.firestorm }))
            } else {
                Err(MageElement::Fire)
            }
        },
        ElementalDpsTree::Void(v) => {
            if same_text(name, "void_bolt") {
                Ok(ElementalDpsTree::Void(VoidBranch { void_bolt: v.void_bolt + 1, reality_fracture: v.reality_fracture, void_drain: v.void_drain, null_field: v.null_field, entropy_stacks: v.entropy_stacks }))
            } else if same_text(name, "void_drain") {
                Ok(ElementalDpsTree::Void(VoidBranch { void_bolt: v.void_bolt, reality_fracture: v.reality_fracture, void_drain: v.void_drain + 1, null_field: v.null_field, entropy_stacks: v.entropy_stacks }))
            } else {
                Err(MageElement::Void)
            }
        },
        ElementalDpsTree::Poison(p) => {
            if same_text(name, "venom_strike") {
                Ok(ElementalDpsTree::Poison(PoisonBranch { venom_strike: p.venom_strike + 1, toxic_cloud: p.toxic_cloud, weaken: p.weaken, plague_carrier: p.plague_carrier, lethal_dose: p.lethal_dose }))
            } else if same_text(name, "toxic_cloud") {
                Ok(ElementalDpsTree::Poison(PoisonBranch { venom_strike: p.venom_strike, toxic_cloud: p.toxic_cloud + 1, weaken: p.weaken, plague_carrier: p.plague_carrier, lethal_dose: p.lethal_dose }))
            } else {
                Err(MageElement::Poison)
            }
        },
    }
}

/// Appends `name` to `v` when `cond` holds.
fn push_if(v: &mut Vec<String>, cond: bool, name: &str)
    ensures
        texts(final(v)@) == texts(old(v)@) + listed_if(cond, name@),
{
    if cond {
        v.push(name.to_owned());
    }
    assert(texts(final(v)@) =~= texts(old(v)@) + listed_if(cond, name@));
}

impl Player {
    /// The cooldown table is well formed.
    pub open spec fn wf(self) -> bool {
        self.cooldowns.wf()
    }

    /// Adds a reward to the player's gold; nothing else changes.
    pub fn collect_gold(&mut self, amount: u32)
        requires
            old(self).gold + amount <= u32::MAX,
        ensures
            *final(self) == (Player { gold: (old(self).gold + amount) as u32, ..*old(self) }),
    {
        self.gold = self.gold + amount;
    }

    /// A level-one player of the given class and specialisation, without gold, talents
    /// or cooldowns, holding a two-handed weapon.
    pub fn new(name: &str, class: PlayerClass, spec: PlayerSpec) -> (p: Player)
        ensures
            p.wf(),
            p.name@ == name@,
            p.level == 1,
            p.talent_points == 0,
            p.class == class,
            p.weapon_style == WeaponStyle::TwoHanded,
            fresh_talents(p.talents, class),
            p.talents == starting_talents(class),
            p.gold == 0,
            p.cooldowns@ == Map::<Seq<char>, u32>::empty(),
            p.spec == spec,
    {
        let talents = match class {
            PlayerClass::Warrior => PlayerTalentTree::Warrior(WarriorTalents::new()),
            PlayerClass::Rogue => PlayerTalentTree::Rogue(RogueTalents::new()),
            PlayerClass::Mage => PlayerTalentTree::Mage(MageTalents::new()),
        };
        Player {
            name: name.to_owned(),
            level: 1,
            talent_points: 0,
            class,
            weapon_style: WeaponStyle::TwoHanded,
            talents,
            gold: 0,
            cooldowns: Cooldowns::new(),
            spec,
        }
    }

    /// Names of the abilities the player's talents give access to.
    #[verifier::spinoff_prover]
    pub fn get_available_abilities(&self) -> (abilities: Vec<String>)
        ensures
            texts(abilities@) == available_abilities(self.talents),
    {
        let mut abilities: Vec<String> = Vec::new();
        abilities.push("basic_attack".to_owned());
        assert(texts(abilities@) =~= seq!["basic_attack"@]);
        match &self.talents {
            PlayerTalentTree::Warrior(w) => {
                push_if(&mut abilities, w.taunt_unlocked, "taunt");
                push_if(&mut abilities, w.war_fury_lvl > 0, "war_fury");
                push_if(&mut abilities, w.executioner_lvl > 0, "executioner");
            },
            PlayerTalentTree::Rogue(r) => {
                push_if(&mut abilities, r.shadow_step_unlocked, "shadow_step");
                push_if(&mut abilities, r.counter_attack_lvl > 0, "counter_attack");
            },
            PlayerTalentTree::Mage(m) => {
                push_if(&mut abilities, m.holy_heal > 0, "holy_heal");
                match &m.dps_tree {
                    None => {},
                    Some(ElementalDpsTree::Ice(i)) => {
                        push_if(&mut abilities, i.frostbolt > 0, "frostbolt");
                        push_if(&mut abilities, i.deep_freeze > 0, "deep_freeze");
                        push_if(&mut abilities, i.ice_lance > 0, "ice_lance");
                    },
                    Some(ElementalDpsTree::Fire(f)) => {
                        push_if(&mut abilities, f.fireball > 0, "fireball");
                        push_if(&mut abilities, f.ignite > 0, "ignite");
                    },
                    Some(ElementalDpsTree::Void(v)) => {
                        push_if(&mut abilities, v.void_bolt > 0, "void_bolt");
                        push_if(&mut abilities, v.void_drain > 0, "void_drain");
                    },
                    Some(ElementalDpsTree::Poison(p)) => {
                        push_if(&mut abilities, p.venom_strike > 0, "venom_strike");
                        push_if(&mut abilities, p.toxic_cloud > 0, "toxic_cloud");
                    },
                }
            },
        }
        assert(texts(abilities@) =~= available_abilities(self.talents));
        abilities
    }

    /// How a basic attack strikes: a rogue with Flurry of Blades strikes three to five
    /// times; anyone else strikes once, then again with a roll of 1 to 100 that does not
    /// exceed `extra_strike_chance`.
    fn basic_attack(&self, extra_strike_chance: u32) -> (b: BasicAttack)
        ensures
            ability_effect_ok(self.talents, "basic_attack"@, extra_strike_chance, AbilityEffect::BasicAttack(b)),
    {
        let flurry = match &self.talents {
            PlayerTalentTree::Rogue(r) => r.flurry_blades_lvl > 0,
            _ => false,
        };
        let mut rng = thread_rng();
        if flurry {
            let hits_roll: u32 = gen_range_inclusive(&mut rng, 3, 5);
            BasicAttack::from_rolls(true, hits_roll, 0, extra_strike_chance)
        } else {
            let strike_roll: u32 = gen_range_inclusive(&mut rng, 1, 100);
            BasicAttack::from_rolls(false, 0, strike_roll, extra_strike_chance)
        }
    }

    /// Uses an ability against the current enemy. It must be available to the player's
    /// talents and off cooldown, and `mana_covers_cost` tells whether the player's mana
    /// is at least its cost; otherwise nothing changes. A used ability costs its mana,
    /// Frostbolt goes on cooldown for three turns and Ice Lance for one, and the effect
    /// on the enemy is returned. `extra_strike_chance` is the chance, in percent, of a quick extra strike
    /// after a basic attack.
    pub fn use_ability(&mut self, ability_name: &str, mana_covers_cost: bool, extra_strike_chance: u32) -> (outcome: AbilityOutcome)
        requires
            old(self).wf(),
        ensures
            final(self).wf(),
            ability_use_ok(*old(self), *final(self), ability_name@, mana_covers_cost, extra_strike_chance, outcome),
    {
        let available = self.get_available_abilities();
        if !list_contains(&available, ability_name) {
            return AbilityOutcome::Refused(AbilityRefusal::NotAvailable);
        }
        match self.cooldowns.get(ability_name) {
            Some(cd) => {
                if cd > 0 {
                    return AbilityOutcome::Refused(AbilityRefusal::OnCooldown(cd));
                }
            },
            None => {},
        }
        let cost: u32 = mana_cost(ability_name);
        if !mana_covers_cost {
            return AbilityOutcome::Refused(AbilityRefusal::NotEnoughMana);
        }
        proof {
            reveal_strlit("basic_attack");
            reveal_strlit("frostbolt");
            reveal_strlit("ice_lance");
            assert("basic_attack"@[0] != "frostbolt"@[0]);
            assert("basic_attack"@[0] != "ice_lance"@[0]);
            assert("frostbolt"@ != "ice_lance"@);
        }
        let effect = if same_text(ability_name, "basic_attack") {
            AbilityEffect::BasicAttack(self.basic_attack(extra_strike_chance))
        } else if same_text(ability_name, "frostbolt") {
            let e = match &self.talents {
                PlayerTalentTree::Mage(m) => match &m.dps_tree {
                    Some(ElementalDpsTree::Ice(i)) => AbilityEffect::Frostbolt { rank: i.frostbolt },
                    _ => AbilityEffect::Fizzled,
                },
                _ => AbilityEffect::Fizzled,
            };
            self.cooldowns.insert("frostbolt".to_owned(), 3);
            e
        } else if same_text(ability_name, "ice_lance") {
            let e = match &self.talents {
                PlayerTalentTree::Mage(m) => match &m.dps_tree {
                    Some(ElementalDpsTree::Ice(i)) => AbilityEffect::IceLance { rank: i.ice_lance },
                    _ => AbilityEffect::Fizzled,
                },
                _ => AbilityEffect::Fizzled,
            };
            self.cooldowns.insert("ice_lance".to_owned(), 1);
            e
        } else {
            AbilityEffect::NotImplemented
        };
        AbilityOutcome::Performed { mana_spent: cost, effect }
    }

    /// Lets a turn pass for the cooldowns; returns the abilities that became ready.
    pub fn tick_cooldowns(&mut self) -> (ready: Vec<String>)
        requires
            old(self).wf(),
        ensures
            final(self).wf(),
            same_but_cooldowns(*final(self), *old(self)),
            turn_passed(old(self).cooldowns@, final(self).cooldowns@),
            forall|k: Seq<char>| texts(ready@).contains(k)
                <==> old(self).cooldowns@.contains_key(k) && old(self).cooldowns@[k] == 1,
            texts(ready@).no_duplicates(),
    {
        self.cooldowns.tick()
    }

    /// Casts an elemental spell of the mage's chosen branch; returns what it does.
    pub fn cast_mage_spell(&self, spell_name: &str) -> (cast: SpellCast)
        ensures
            cast == spell_cast(self.talents, spell_name@),
    {
        match &self.talents {
            PlayerTalentTree::Mage(m) => match &m.dps_tree {
                Some(ElementalDpsTree::Ice(i)) => {
                    if same_text(spell_name, "frostbolt") {
                        if i.frostbolt == 0 { SpellCast::NotUnlocked } else { SpellCast::Frostbolt { rank: i.frostbolt } }
                    } else if same_text(spell_name, "ice_lance") {
                        if i.ice_lance == 0 { SpellCast::NotUnlocked } else { SpellCast::IceLance { rank: i.ice_lance } }
                    } else {
                        SpellCast::NotInBranch(MageElement::Ice)
                    }
                },
                Some(ElementalDpsTree::Fire(f)) => {
                    if same_text(spell_name, "fireball") {
                        if f.fireball == 0 { SpellCast::NotUnlocked } else { SpellCast::Fireball { rank: f.fireball } }
                    } else {
                        SpellCast::NotInBranch(MageElement::Fire)
                    }
                },
                Some(ElementalDpsTree::Void(_)) => SpellCast::NotImplemented(MageElement::Void),
                Some(ElementalDpsTree::Poison(_)) => SpellCast::NotImplemented(MageElement::Poison),
                None => SpellCast::NoElementalSpec,
            },
            _ => SpellCast::NotMage,
        }
    }

    /// A mage picks the elemental branch named by `element`, in any letter case; the
    /// branch starts with no rank spent and replaces any earlier one.
    pub fn choose_elemental_spec(&mut self, element: &str) -> (choice: SpecChoice)
        requires
            old(self).wf(),
        ensures
            final(self).wf(),
            elemental_choice_ok(*old(self), *final(self), lowercase(element@), choice),
    {
        let lower = to_lowercase(element);
        self.choose_lowercase_element(lower.as_str())
    }

    /// A mage picks the elemental branch named exactly by `lowered` ("void", "fire",
    /// "ice" or "poison"); the branch starts with no rank spent and replaces any
    /// earlier one.
    pub fn choose_lowercase_element(&mut self, lowered: &str) -> (choice: SpecChoice)
        requires
            old(self).wf(),
        ensures
            final(self).wf(),
            elemental_choice_ok(*old(self), *final(self), lowered@, choice),
    {
        let m = match &self.talents {
            PlayerTalentTree::Mage(m) => m,
            _ => { return SpecChoice::NotMage; },
        };
        let choice = if same_text(lowered, "void") {
            (MageElement::Void, ElementalDpsTree::new_void())
        } else if same_text(lowered, "fire") {
            (MageElement::Fire, ElementalDpsTree::new_fire())
        } else if same_text(lowered, "ice") {
            (MageElement::Ice, ElementalDpsTree::new_ice())
        } else if same_text(lowered, "poison") {
            (MageElement::Poison, ElementalDpsTree::new_poison())
        } else {
            return SpecChoice::InvalidElement;
        };
        let (element_kind, tree) = choice;
        let talents = PlayerTalentTree::Mage(MageTalents {
            holy_shield: m.holy_shield,
            aura_of_resilience: m.aura_of_resilience,
            class_synergy: m.class_synergy,
            holy_heal: m.holy_heal,
            resurrection: m.resurrection,
            heal_amplification: m.heal_amplification,
            dps_tree: Some(tree),
        });
        self.talents = talents;
        SpecChoice::Chosen(element_kind)
    }

    /// Rank of the elemental talent `name`, when the player is a mage whose chosen branch
    /// has a talent of that name.
    pub fn talent_rank(&self, name: &str) -> (r: Option<u32>)
        ensures
            r == named_rank(self.talents, name@),
    {
        match &self.talents {
            PlayerTalentTree::Mage(m) => match &m.dps_tree {
                Some(ElementalDpsTree::Ice(i)) => {
                    if same_text(name, "frostbolt") {
                        Some(i.frostbolt)
                    } else if same_text(name, "deep_freeze") {
                        Some(i.deep_freeze)
                    } else if same_text(name, "ice_lance") {
                        Some(i.ice_lance)
                    } else {
                        None
                    }
                },
                Some(ElementalDpsTree::Fire(f)) => {
                    if same_text(name, "fireball") {
                        Some(f.fireball)
                    } else if same_text(name, "ignite") {
                        Some(f.ignite)
                    } else {
                        None
                    }
                },
                Some(ElementalDpsTree::Void(v)) => {
                    if same_text(name, "void_bolt") {
                        Some(v.void_bolt)
                    } else if same_text(name, "void_drain") {
                        Some(v.void_drain)
                    } else {
                        None
                    }
                },
                Some(ElementalDpsTree::Poison(p)) => {
                    if same_text(name, "venom_strike") {
                        Some(p.venom_strike)
                    } else if same_text(name, "toxic_cloud") {
                        Some(p.toxic_cloud)
                    } else {
                        None
                    }
                },
                None => None,
            },
            _ => None,
        }
    }

    /// Spends a talent point to raise one talent of the mage's elemental branch by one
    /// rank. Needs a talent point, a mage, a chosen branch, and a talent of that branch.
    pub fn upgrade_mage_dps_talent(&mut self, talent_name: &str) -> (r: TalentUpgrade)
        requires
            old(self).wf(),
            old(self).talent_points == 0 || named_rank(old(self).talents, talent_name@) != Some(
                u32::MAX,
            ),
        ensures
            final(self).wf(),
            r == talent_upgrade(old(self).talent_points, old(self).talents, talent_name@).0,
            final(self).talent_points == talent_upgrade(old(self).talent_points, old(self).talents, talent_name@).1,
            final(self).talents == talent_upgrade(old(self).talent_points, old(self).talents, talent_name@).2,
            final(self).cooldowns == old(self).cooldowns,
            final(self).name == old(self).name,
            final(self).level == old(self).level,
            final(self).class == old(self).class,
            final(self).weapon_style == old(self).weapon_style,
            final(self).gold == old(self).gold,
            final(self).spec == old(self).spec,
    {
        if self.talent_points == 0 {
            return TalentUpgrade::NoTalentPoints;
        }
        let talents = match &self.talents {
            PlayerTalentTree::Mage(m) => match &m.dps_tree {
                Some(tree) => match raise_branch(tree, talent_name) {
                    Ok(raised) => PlayerTalentTree::Mage(MageTalents {
                        holy_shield: m.holy_shield,
                        aura_of_resilience: m.aura_of_resilience,
                        class_synergy: m.class_synergy,
                        holy_heal: m.holy_heal,
                        resurrection: m.resurrection,
                        heal_amplification: m.heal_amplification,
                        dps_tree: Some(raised),
                    }),
                    Err(element) => {
                        return TalentUpgrade::UnknownTalent(element);
                    },
                },
                None => {
                    return TalentUpgrade::NoElementalSpec;
                },
            },
            _ => {
                return TalentUpgrade::NotMage;
            },
        };
        self.talents = talents;
        self.talent_points = self.talent_points - 1;
        TalentUpgrade::Upgraded
    }

    /// Takes up a weapon style; returns what it does to blocking. A shield, even one
    /// already held, sets the base block of a wooden shield.
    pub fn set_weapon_style(&mut self, style: WeaponStyle) -> (change: BlockChange)
        ensures
            change == block_change(old(self).weapon_style, style),
            final(self).weapon_style == style,
            final(self).name == old(self).name,
            final(self).level == old(self).level,
            final(self).talent_points == old(self).talent_points,
            final(self).class == old(self).class,
            final(self).talents == old(self).talents,
            final(self).gold == old(self).gold,
            final(self).cooldowns == old(self).cooldowns,
            final(self).spec == old(self).spec,
    {
        let change = if style == WeaponStyle::OneHandedShield {
            BlockChange::Equipped { chance_percent: 15, value: 8 }
        } else if self.weapon_style == WeaponStyle::OneHandedShield {
            BlockChange::Removed
        } else {
            BlockChange::Unchanged
        };
        self.weapon_style = style;
        change
    }

    /// Moves one level up and grants a talent point; returns the attributes the class
    /// gains with the level.
    pub fn level_up(&mut self) -> (gains: Attributes)
        requires
            old(self).level < u32::MAX,
            old(self).talent_points < u32::MAX,
        ensures
            leveled_up(*old(self), *final(self)),
            gains == spec_level_up_gains(old(self).class),
    {
        self.level = self.level + 1;
        self.talent_points = self.talent_points + 1;
        level_up_gains(self.class)
    }
}

/// Names of the elemental talents the player can spend points on.
pub fn get_talent_list(player: &Player) -> (names: Vec<String>)
    ensures
        texts(names@) == talent_list(player.talents),
{
    let mut names: Vec<String> = Vec::new();
    match &player.talents {
        PlayerTalentTree::Mage(m) => match &m.dps_tree {
            Some(ElementalDpsTree::Ice(_)) => {
                names.push("frostbolt".to_owned());
                names.push("deep_freeze".to_owned());
                names.push("ice_lance".to_owned());
            },
            Some(ElementalDpsTree::Fire(_)) => {
                names.push("fireball".to_owned());
                names.push("ignite".to_owned());
            },
            Some(ElementalDpsTree::Void(_)) => {
                names.push("void_bolt".to_owned());
                names.push("void_drain".to_owned());
            },
            Some(ElementalDpsTree::Poison(_)) => {
                names.push("venom_strike".to_owned());
                names.push("toxic_cloud".to_owned());
            },
            None => {},
        },
        _ => {},
    }
    assert(texts(names@) =~= talent_list(player.talents));
    names
}

/// The hero of a new game: a player of the chosen class and specialisation, with the
/// elemental branch `element` picked, the talent `first_talent` learnt with a talent
/// point granted for it, and the first talent of the physical specialisations
/// (Flurry of Blades, War Fury, Taunt) given for free.
pub fn build_player(
    class: PlayerClass,
    spec: PlayerSpec,
    element: Option<&str>,
    first_talent: Option<&str>,
) -> (p: Player)
    ensures
        p.wf(),
        p.name@ == "Hero"@,
        p.level == 1,
        p.class == class,
        p.spec == spec,
        p.gold == 0,
        p.weapon_style == WeaponStyle::TwoHanded,
        p.cooldowns@ == Map::<Seq<char>, u32>::empty(),
        ({
            let chosen = match element {
                Some(e) => talents_with_element(starting_talents(class), e@),
                None => starting_talents(class),
            };
            let learnt = match first_talent {
                Some(n) => talent_upgrade(1, chosen, n@),
                None => (TalentUpgrade::NoTalentPoints, 0u32, chosen),
            };
            &&& p.talent_points == learnt.1
            &&& p.talents == with_spec_talent(learnt.2, spec)
        }),
{
    let mut p = Player::new("Hero", class, spec);
    match element {
        Some(e) => {
            let _ = p.choose_elemental_spec(e);
        },
        None => {},
    }
    match first_talent {
        Some(t) => {
            p.talent_points = 1;
            let _ = p.upgrade_mage_dps_talent(t);
        },
        None => {},
    }
    if spec == PlayerSpec::RogueAssassin {
        match &mut p.talents {
            PlayerTalentTree::Rogue(r) => {
                r.flurry_blades_lvl = 1;
            },
            _ => {},
        }
    }
    if spec == PlayerSpec::WarriorDPS {
        match &mut p.talents {
            PlayerTalentTree::Warrior(w) => {
                w.war_fury_lvl = 1;
            },
            _ => {},
        }
    }
    if spec == PlayerSpec::WarriorTank {
        match &mut p.talents {
            PlayerTalentTree::Warrior(w) => {
                w.taunt_unlocked = true;
            },
            _ => {},
        }
    }
    p
}

} // verus!
