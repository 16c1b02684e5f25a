//! Talent trees of the three classes, and the elemental branches a mage may pick.
use vstd::prelude::*;

verus! {

/// The talent tree a player carries; its variant always matches the player's class.
#[derive(Debug, Clone)]
pub enum PlayerTalentTree {
    Warrior(WarriorTalents),
    Rogue(RogueTalents),
    Mage(MageTalents),
}

/// The four elements of the mage's damage branch.
#[derive(Debug, Clone, Copy, PartialEq, Eq, Structural)]
pub enum MageElement {
    Void,
    Fire,
    Ice,
    Poison,
}

#[derive(Debug, Clone)]
pub struct WarriorTalents {
    // Tank branch
    pub iron_fortress_lvl: u32,
    pub arcane_barrier_lvl: u32,
    pub ironwill_lvl: u32,
    pub taunt_unlocked: bool,
    pub true_bulwark_unlocked: bool,
    // Damage branch
    pub berserker_crit_lvl: u32,
    pub true_strike_unlocked: bool,
    pub war_fury_lvl: u32,
    pub executioner_lvl: u32,
    pub undying_rage_unlocked: bool,
}

#[derive(Debug, Clone)]
pub struct RogueTalents {
    // Assassin branch
    pub quickblade_lvl: u32,
    pub flurry_blades_lvl: u32,
    pub armor_breach_lvl: u32,
    pub resistance_shred_lvl: u32,
    pub shadow_step_unlocked: bool,
    pub thousand_cuts_unlocked: bool,
    // Duelist branch
    pub parry_lvl: u32,
    pub counter_attack_lvl: u32,
    pub evasion_arts_lvl: u32,
    pub blade_dance_lvl: u32,
    pub perfect_defense_unlocked: bool,
}

#[derive(Debug, Clone)]
pub struct MageTalents {
    // Healer branch
    pub holy_shield: u32,
    pub aura_of_resilience: u32,
    pub class_synergy: u32,
    pub holy_heal: u32,
    pub resurrection: u32,
    pub heal_amplification: u32,
    /// The elemental damage branch, once one has been chosen.
    pub dps_tree: Option<ElementalDpsTree>,
}

#[derive(Debug, Clone)]
pub struct VoidBranch {
    pub void_bolt: u32,
    pub reality_fracture: u32,
    pub void_drain: u32,
    pub null_field: u32,
    pub entropy_stacks: u32,
}

#[derive(Debug, Clone)]
pub struct FireBranch {
    pub fireball: u32,
    pub ignite: u32,
    pub fire_mastery: u32,
    pub melt_armor: u32,
    pub firestorm: u32,
}

#[derive(Debug, Clone)]
pub struct IceBranch {
    pub frostbolt: u32,
    pub deep_freeze: u32,
    pub ice_lance: u32,
    pub shatter: u32,
    pub blizzard: u32,
}

#[derive(Debug, Clone)]
pub struct PoisonBranch {
    pub venom_strike: u32,
    pub toxic_cloud: u32,
    pub weaken: u32,
    pub plague_carrier: u32,
    pub lethal_dose: u32,
}

#[derive(Debug, Clone)]
pub enum ElementalDpsTree {
    Void(VoidBranch),
    Fire(FireBranch),
    Ice(IceBranch),
    Poison(PoisonBranch),
}

impl VoidBranch {
    /// Sum of the ranks spent in this branch.
    pub open spec fn total_ranks(self) -> int {
        self.void_bolt + self.reality_fracture + self.void_drain + self.null_field
            + self.entropy_stacks
    }
}

impl FireBranch {
    pub open spec fn total_ranks(self) -> int {
        self.fireball + self.ignite + self.fire_mastery + self.melt_armor + self.firestorm
    }
}

impl IceBranch {
    pub open spec fn total_ranks(self) -> int {
        self.frostbolt + self.deep_freeze + self.ice_lance + self.shatter + self.blizzard
    }
}

impl PoisonBranch {
    pub open spec fn total_ranks(self) -> int {
        self.venom_strike + self.toxic_cloud + self.weaken + self.plague_carrier + self.lethal_dose
    }
}

impl ElementalDpsTree {
    /// The element this branch belongs to.
    pub open spec fn element(self) -> MageElement {
        match self {
            ElementalDpsTree::Void(_) => MageElement::Void,
            ElementalDpsTree::Fire(_) => MageElement::Fire,
            ElementalDpsTree::Ice(_) => MageElement::Ice,
            ElementalDpsTree::Poison(_) => MageElement::Poison,
        }
    }

    /// Sum of the ranks spent in the branch.
    pub open spec fn total_ranks(self) -> int {
        match self {
            ElementalDpsTree::Void(b) => b.total_ranks(),
            ElementalDpsTree::Fire(b) => b.total_ranks(),
            ElementalDpsTree::Ice(b) => b.total_ranks(),
            ElementalDpsTree::Poison(b) => b.total_ranks(),
        }
    }

    /// A branch of the given element in which no rank has been spent.
    pub open spec fn fresh(element: MageElement) -> ElementalDpsTree {
        match element {
            MageElement::Void => ElementalDpsTree::Void(
                VoidBranch { void_bolt: 0, reality_fracture: 0, void_drain: 0, null_field: 0, entropy_stacks: 0 },
            ),
            MageElement::Fire => ElementalDpsTree::Fire(
                FireBranch { fireball: 0, ignite: 0, fire_mastery: 0, melt_armor: 0, firestorm: 0 },
            ),
            MageElement::Ice => ElementalDpsTree::Ice(
                IceBranch { frostbolt: 0, deep_freeze: 0, ice_lance: 0, shatter: 0, blizzard: 0 },
            ),
            MageElement::Poison => ElementalDpsTree::Poison(
                PoisonBranch { venom_strike: 0, toxic_cloud: 0, weaken: 0, plague_carrier: 0, lethal_dose: 0 },
            ),
        }
    }

    /// A fresh branch is of its element, and no rank of it has been spent.
    pub proof fn lemma_fresh_branch(element: MageElement)
        ensures
            ElementalDpsTree::fresh(element).element() == element,
            ElementalDpsTree::fresh(element).total_ranks() == 0,
    {
    }

    pub fn new_void() -> (t: Self)
        ensures
            t == ElementalDpsTree::fresh(MageElement::Void),
    {
        ElementalDpsTree::Void(
            VoidBranch { void_bolt: 0, reality_fracture: 0, void_drain: 0, null_field: 0, entropy_stacks: 0 },
        )
    }

    pub fn new_fire() -> (t: Self)
        ensures
            t == ElementalDpsTree::fresh(MageElement::Fire),
    {
        ElementalDpsTree::Fire(
            FireBranch { fireball: 0, ignite: 0, fire_mastery: 0, melt_armor: 0, firestorm: 0 },
        )
    }

    pub fn new_ice() -> (t: Self)
        ensures
            t == ElementalDpsTree::fresh(MageElement::Ice),
    {
        ElementalDpsTree::Ice(
            IceBranch { frostbolt: 0, deep_freeze: 0, ice_lance: 0, shatter: 0, blizzard: 0 },
        )
    }

    pub fn new_poison() -> (t: Self)
        ensures
            t == ElementalDpsTree::fresh(MageElement::Poison),
    {
        ElementalDpsTree::Poison(
            PoisonBranch { venom_strike: 0, toxic_cloud: 0, weaken: 0, plague_carrier: 0, lethal_dose: 0 },
        )
    }
}

impl WarriorTalents {
    /// No talent learnt yet.
    pub open spec fn is_fresh(self) -> bool {
        &&& self.iron_fortress_lvl == 0
        &&& self.arcane_barrier_lvl == 0
        &&& self.ironwill_lvl == 0
        &&& !self.taunt_unlocked
        &&& !self.true_bulwark_unlocked
        &&& self.berserker_crit_lvl == 0
        &&& !self.true_strike_unlocked
        &&& self.war_fury_lvl == 0
        &&& self.executioner_lvl == 0
        &&& !self.undying_rage_unlocked
    }

    pub fn new() -> (t: Self)
        ensures
            t.is_fresh(),
    {
        WarriorTalents {
            iron_fortress_lvl: 0,
            arcane_barrier_lvl: 0,
            ironwill_lvl: 0,
            taunt_unlocked: false,
            true_bulwark_unlocked: false,
            berserker_crit_lvl: 0,
            true_strike_unlocked: false,
            war_fury_lvl: 0,
            executioner_lvl: 0,
            undying_rage_unlocked: false,
        }
    }
}

impl RogueTalents {
    /// No talent learnt yet.
    pub open spec fn is_fresh(self) -> bool {
        &&& self.quickblade_lvl == 0
        &&& self.flurry_blades_lvl == 0
        &&& self.armor_breach_lvl == 0
        &&& self.resistance_shred_lvl == 0
        &&& !self.shadow_step_unlocked
        &&& !self.thousand_cuts_unlocked
        &&& self.parry_lvl == 0
        &&& self.counter_attack_lvl == 0
        &&& self.evasion_arts_lvl == 0
        &&& self.blade_dance_lvl == 0
        &&& !self.perfect_defense_unlocked
    }

    pub fn new() -> (t: Self)
        ensures
            t.is_fresh(),
    {
        RogueTalents {
            quickblade_lvl: 0,
            flurry_blades_lvl: 0,
            armor_breach_lvl: 0,
            resistance_shred_lvl: 0,
            shadow_step_unlocked: false,
            thousand_cuts_unlocked: false,
            parry_lvl: 0,
            counter_attack_lvl: 0,
            evasion_arts_lvl: 0,
            blade_dance_lvl: 0,
            perfect_defense_unlocked: false,
        }
    }
}

impl MageTalents {
    /// No talent learnt yet and no elemental branch chosen.
    pub open spec fn is_fresh(self) -> bool {
        &&& self.holy_shield == 0
        &&& self.aura_of_resilience == 0
        &&& self.class_synergy == 0
        &&& self.holy_heal == 0
        &&& self.resurrection == 0
        &&& self.heal_amplification == 0
        &&& self.dps_tree is None
    }

    pub fn new() -> (t: Self)
        ensures
            t.is_fresh(),
    {
        MageTalents {
            holy_shield: 0,
            aura_of_resilience: 0,
            class_synergy: 0,
            holy_heal: 0,
            resurrection: 0,
            heal_amplification: 0,
            dps_tree: None,
        }
    }
}

} // verus!
