//! Properties that span several operations on a player.
use vstd::prelude::*;
use crate::cooldowns::{ticked, turn_passed};
use crate::mechanics::{
    has_flurry,
    ability_use_ok, available_abilities, spell_cooldown, branch_rank, listed_if, elemental_ranks, leveled_up, named_rank,
    same_but_cooldowns, spec_level_up_gains, talent_list, talent_upgrade, AbilityOutcome,
    AbilityRefusal, Player, PlayerClass, TalentUpgrade, ability_mana_cost, spell_cast, ice_branch,
    SpellCast, elemental_choice_ok, SpecChoice, starting_talents, with_spec_talent, PlayerSpec,
};
use crate::talents::{ElementalDpsTree, FireBranch, MageTalents, PlayerTalentTree};

verus! {

/// Talent points are only ever turned into elemental ranks: spending a point raises the
/// ranks of the branch by exactly one, and any refusal leaves both unchanged.
pub proof fn lemma_upgrade_conserves_points(talent_points: u32, t: PlayerTalentTree, name: Seq<char>)
    requires
        talent_points == 0 || named_rank(t, name) != Some(u32::MAX),
    ensures
        talent_upgrade(talent_points, t, name).1 + elemental_ranks(talent_upgrade(talent_points, t, name).2)
            == talent_points + elemental_ranks(t),
        (talent_upgrade(talent_points, t, name).0 == TalentUpgrade::Upgraded)
            <==> (talent_upgrade(talent_points, t, name).1 < talent_points),
{
}

/// Talent points follow the level: a player who started at level one without points,
/// and has only levelled up since, holds one point per level gained.
pub proof fn lemma_points_follow_levels(before: Player, after: Player)
    requires
        before.talent_points + 1 == before.level,
        leveled_up(before, after),
    ensures
        after.talent_points + 1 == after.level,
{
}

/// Every talent an elemental branch lets a mage learn is, once learnt, an ability the
/// mage can use.
pub proof fn lemma_learnt_talent_is_available(talent_points: u32, t: PlayerTalentTree, name: Seq<char>)
    requires
        talent_points > 0,
        named_rank(t, name) is Some,
        named_rank(t, name) != Some(u32::MAX),
    ensures
        available_abilities(talent_upgrade(talent_points, t, name).2).contains(name),
{
    reveal_strlit("frostbolt");
    reveal_strlit("deep_freeze");
    reveal_strlit("ice_lance");
    reveal_strlit("fireball");
    reveal_strlit("ignite");
    reveal_strlit("void_bolt");
    reveal_strlit("void_drain");
    reveal_strlit("venom_strike");
    reveal_strlit("toxic_cloud");
    let after = talent_upgrade(talent_points, t, name).2;
    match after {
        PlayerTalentTree::Mage(m) => {
            let head = seq!["basic_attack"@] + listed_if(m.holy_heal > 0, "holy_heal"@);
            match m.dps_tree {
                Some(ElementalDpsTree::Ice(i)) => {
                    let a = listed_if(i.frostbolt > 0, "frostbolt"@);
                    let b = listed_if(i.deep_freeze > 0, "deep_freeze"@);
                    let c = listed_if(i.ice_lance > 0, "ice_lance"@);
                    assert(available_abilities(after) =~= head + (a + b + c));
                    if name == "frostbolt"@ {
                        lemma_listed(i.frostbolt > 0, name);
                        lemma_contains_left(a, b, name);
                        lemma_contains_left(a + b, c, name);
                    } else if name == "deep_freeze"@ {
                        lemma_listed(i.deep_freeze > 0, name);
                        lemma_contains_right(a, b, name);
                        lemma_contains_left(a + b, c, name);
                    } else {
                        lemma_listed(i.ice_lance > 0, name);
                        lemma_contains_right(a + b, c, name);
                    }
                    lemma_contains_right(head, a + b + c, name);
                },
                Some(ElementalDpsTree::Fire(f)) => {
                    let a = listed_if(f.fireball > 0, "fireball"@);
                    let b = listed_if(f.ignite > 0, "ignite"@);
                    assert(available_abilities(after) =~= head + (a + b));
                    if name == "fireball"@ {
                        lemma_listed(f.fireball > 0, name);
                        lemma_contains_left(a, b, name);
                    } else {
                        lemma_listed(f.ignite > 0, name);
                        lemma_contains_right(a, b, name);
                    }
                    lemma_contains_right(head, a + b, name);
                },
                Some(ElementalDpsTree::Void(v)) => {
                    let a = listed_if(v.void_bolt > 0, "void_bolt"@);
                    let b = listed_if(v.void_drain > 0, "void_drain"@);
                    assert(available_abilities(after) =~= head + (a + b));
                    if name == "void_bolt"@ {
                        lemma_listed(v.void_bolt > 0, name);
                        lemma_contains_left(a, b, name);
                    } else {
                        lemma_listed(v.void_drain > 0, name);
                        lemma_contains_right(a, b, name);
                    }
                    lemma_contains_right(head, a + b, name);
                },
                Some(ElementalDpsTree::Poison(q)) => {
                    let a = listed_if(q.venom_strike > 0, "venom_strike"@);
                    let b = listed_if(q.toxic_cloud > 0, "toxic_cloud"@);
                    assert(available_abilities(after) =~= head + (a + b));
                    if name == "venom_strike"@ {
                        lemma_listed(q.venom_strike > 0, name);
                        lemma_contains_left(a, b, name);
                    } else {
                        lemma_listed(q.toxic_cloud > 0, name);
                        lemma_contains_right(a, b, name);
                    }
                    lemma_contains_right(head, a + b, name);
                },
                None => {},
            }
        },
        _ => {},
    }
}

proof fn lemma_listed(cond: bool, x: Seq<char>)
    requires
        cond,
    ensures
        listed_if(cond, x).contains(x),
{
    assert(listed_if(cond, x)[0] == x);
}

proof fn lemma_contains_left(a: Seq<Seq<char>>, b: Seq<Seq<char>>, x: Seq<char>)
    requires
        a.contains(x),
    ensures
        (a + b).contains(x),
{
    let i = choose|i: int| 0 <= i < a.len() && a[i] == x;
    assert((a + b)[i] == x);
}

proof fn lemma_contains_right(a: Seq<Seq<char>>, b: Seq<Seq<char>>, x: Seq<char>)
    requires
        b.contains(x),
    ensures
        (a + b).contains(x),
{
    let i = choose|i: int| 0 <= i < b.len() && b[i] == x;
    assert((a + b)[a.len() + i] == x);
}

/// Every talent offered for learning belongs to the mage's branch, so spending a point
/// on it succeeds.
pub proof fn lemma_listed_talents_can_be_learnt(talent_points: u32, t: PlayerTalentTree, name: Seq<char>)
    requires
        talent_list(t).contains(name),
        talent_points > 0,
        named_rank(t, name) != Some(u32::MAX),
    ensures
        named_rank(t, name) is Some,
        talent_upgrade(talent_points, t, name).0 == TalentUpgrade::Upgraded,
{
    reveal_strlit("frostbolt");
    reveal_strlit("deep_freeze");
    reveal_strlit("ice_lance");
    reveal_strlit("fireball");
    reveal_strlit("ignite");
    reveal_strlit("void_bolt");
    reveal_strlit("void_drain");
    reveal_strlit("venom_strike");
    reveal_strlit("toxic_cloud");
    let i = choose|i: int| 0 <= i < talent_list(t).len() && talent_list(t)[i] == name;
    assert("deep_freeze"@[0] != "frostbolt"@[0]);
    assert("ice_lance"@[0] != "frostbolt"@[0]);
    assert("ice_lance"@[0] != "deep_freeze"@[0]);
    assert("ignite"@[0] != "fireball"@[0]);
    assert("void_drain"@[5] != "void_bolt"@[5]);
    assert("toxic_cloud"@[0] != "venom_strike"@[0]);
}

/// Turn `i + 1` of a run follows turn `i` by one turn of cooldowns and nothing else.
pub open spec fn turn_step(turns: Seq<Player>, i: int) -> bool {
    &&& same_but_cooldowns(turns[i + 1], turns[i])
    &&& turn_passed(turns[i].cooldowns@, turns[i + 1].cooldowns@)
}

/// A run of players, one per turn, where each turn only lets the cooldowns tick.
pub open spec fn turns_pass(turns: Seq<Player>) -> bool {
    forall|i: int| 0 <= i < turns.len() - 1 ==> #[trigger] turn_step(turns, i)
}

/// Over a run of turns, the talents stay and a cooldown ticks once per turn.
proof fn lemma_run_ticks(turns: Seq<Player>, name: Seq<char>, k: int)
    requires
        turns_pass(turns),
        0 <= k < turns.len(),
        turns[0].cooldowns@.contains_key(name),
    ensures
        turns[k].cooldowns@.contains_key(name),
        turns[k].cooldowns@[name] == ticked_times(turns[0].cooldowns@[name], k as nat),
        turns[k].talents == turns[0].talents,
    decreases k,
{
    if k > 0 {
        lemma_run_ticks(turns, name, k - 1);
        assert(turn_step(turns, k - 1));
    }
}

/// An ice spell, once cast, waits out its cooldown, Frostbolt three turns and Ice Lance
/// one: cast again after fewer turns than that, it is refused as on cooldown for the
/// turns still left; after as many turns or more, it is cast again whenever the mana
/// covers it.
pub proof fn lemma_ice_spell_waits_its_cooldown(
    name: Seq<char>,
    extra_strike_chance: u32,
    p0: Player,
    cast: AbilityOutcome,
    turns: Seq<Player>,
    mana_covers_cost: bool,
    after: Player,
    outcome: AbilityOutcome,
)
    requires
        name == "frostbolt"@ || name == "ice_lance"@,
        turns.len() >= 1,
        ability_use_ok(p0, turns[0], name, true, extra_strike_chance, cast),
        cast is Performed,
        turns_pass(turns),
        ability_use_ok(turns.last(), after, name, mana_covers_cost, extra_strike_chance, outcome),
    ensures
        turns.len() - 1 < spell_cooldown(name) ==> outcome == AbilityOutcome::Refused(
            AbilityRefusal::OnCooldown((spell_cooldown(name) - (turns.len() - 1)) as u32),
        ),
        turns.len() - 1 >= spell_cooldown(name) ==> (outcome is Performed <==> mana_covers_cost),
{
    let k = turns.len() - 1;
    assert(turns[0].cooldowns@.contains_key(name));
    lemma_run_ticks(turns, name, k);
    lemma_cooldown_runs_out(spell_cooldown(name), k as nat);
}

/// A cooldown counter after `n` turns.
pub open spec fn ticked_times(t: u32, n: nat) -> u32
    decreases n,
{
    if n == 0 { t } else { ticked(ticked_times(t, (n - 1) as nat)) }
}

/// A cooldown never grows while turns pass, and a cooldown of `t` turns is over after
/// `t` turns: from then on it stays at zero.
pub proof fn lemma_cooldown_runs_out(t: u32, n: nat)
    ensures
        ticked_times(t, n) <= t,
        n >= t ==> ticked_times(t, n) == 0,
        n < t ==> ticked_times(t, n) == t - n,
    decreases n,
{
    if n > 0 {
        lemma_cooldown_runs_out(t, (n - 1) as nat);
    }
}

/// Every level up raises every attribute, the class's main one by three.
pub proof fn lemma_level_up_raises_attributes(class: PlayerClass)
    ensures
        spec_level_up_gains(class).strength >= 1,
        spec_level_up_gains(class).agility >= 1,
        spec_level_up_gains(class).intelligence >= 1,
        spec_level_up_gains(class).strength + spec_level_up_gains(class).agility
            + spec_level_up_gains(class).intelligence == 5,
{
}

/// The names of `names` whose condition in `conds` holds, in order.
pub open spec fn offered(names: Seq<Seq<char>>, conds: Seq<bool>) -> Seq<Seq<char>>
    decreases names.len(),
{
    if names.len() == 0 || conds.len() != names.len() {
        Seq::empty()
    } else {
        offered(names.drop_last(), conds.drop_last()) + listed_if(conds.last(), names.last())
    }
}

proof fn lemma_offered(names: Seq<Seq<char>>, conds: Seq<bool>)
    requires
        names.no_duplicates(),
        conds.len() == names.len(),
    ensures
        offered(names, conds).no_duplicates(),
        forall|x: Seq<char>| #[trigger] offered(names, conds).contains(x) ==> names.contains(x),
    decreases names.len(),
{
    if names.len() > 0 {
        let p = names.drop_last();
        assert forall|a: int, b: int| 0 <= a < p.len() && 0 <= b < p.len() && a != b implies p[a] != p[b] by {
            assert(p[a] == names[a] && p[b] == names[b]);
        }
        lemma_offered(p, conds.drop_last());
        let o = offered(p, conds.drop_last());
        let all = offered(names, conds);
        assert(all == o + listed_if(conds.last(), names.last()));
        assert forall|x: Seq<char>| all.contains(x) implies names.contains(x) by {
            let k = choose|k: int| 0 <= k < all.len() && all[k] == x;
            if k < o.len() {
                assert(o[k] == x);
                assert(o.contains(x));
                let m = choose|m: int| 0 <= m < p.len() && p[m] == x;
                assert(names[m] == x);
            } else {
                assert(names[names.len() - 1] == x);
            }
        }
        assert forall|a: int, b: int| 0 <= a < all.len() && 0 <= b < all.len() && a != b implies all[a] != all[b] by {
            if a < o.len() && b < o.len() {
                assert(all[a] == o[a] && all[b] == o[b]);
            } else if a < o.len() {
                assert(o.contains(all[a]));
                let m = choose|m: int| 0 <= m < p.len() && p[m] == all[a];
                assert(names[m] == all[a]);
                assert(all[b] == names.last());
            } else if b < o.len() {
                assert(o.contains(all[b]));
                let m = choose|m: int| 0 <= m < p.len() && p[m] == all[b];
                assert(names[m] == all[b]);
                assert(all[a] == names.last());
            }
        }
    }
}

/// The abilities on offer start with the basic attack and name each ability once.
pub proof fn lemma_abilities_listed_once(t: PlayerTalentTree)
    ensures
        available_abilities(t)[0] == "basic_attack"@,
        available_abilities(t).no_duplicates(),
{
    reveal_strlit("basic_attack");
    reveal_strlit("taunt");
    reveal_strlit("war_fury");
    reveal_strlit("executioner");
    reveal_strlit("shadow_step");
    reveal_strlit("counter_attack");
    reveal_strlit("holy_heal");
    reveal_strlit("frostbolt");
    reveal_strlit("deep_freeze");
    reveal_strlit("ice_lance");
    reveal_strlit("fireball");
    reveal_strlit("ignite");
    reveal_strlit("void_bolt");
    reveal_strlit("void_drain");
    reveal_strlit("venom_strike");
    reveal_strlit("toxic_cloud");
    let names: Seq<Seq<char>>;
    let conds: Seq<bool>;
    match t {
        PlayerTalentTree::Warrior(w) => {
            names = seq!["basic_attack"@, "taunt"@, "war_fury"@, "executioner"@];
            conds = seq![true, w.taunt_unlocked, w.war_fury_lvl > 0, w.executioner_lvl > 0];
        },
        PlayerTalentTree::Rogue(r) => {
            names = seq!["basic_attack"@, "shadow_step"@, "counter_attack"@];
            conds = seq![true, r.shadow_step_unlocked, r.counter_attack_lvl > 0];
        },
        PlayerTalentTree::Mage(m) => match m.dps_tree {
            None => {
                names = seq!["basic_attack"@, "holy_heal"@];
                conds = seq![true, m.holy_heal > 0];
            },
            Some(ElementalDpsTree::Ice(i)) => {
                names = seq!["basic_attack"@, "holy_heal"@, "frostbolt"@, "deep_freeze"@, "ice_lance"@];
                conds = seq![true, m.holy_heal > 0, i.frostbolt > 0, i.deep_freeze > 0, i.ice_lance > 0];
            },
            Some(ElementalDpsTree::Fire(f)) => {
                names = seq!["basic_attack"@, "holy_heal"@, "fireball"@, "ignite"@];
                conds = seq![true, m.holy_heal > 0, f.fireball > 0, f.ignite > 0];
            },
            Some(ElementalDpsTree::Void(v)) => {
                names = seq!["basic_attack"@, "holy_heal"@, "void_bolt"@, "void_drain"@];
                conds = seq![true, m.holy_heal > 0, v.void_bolt > 0, v.void_drain > 0];
            },
            Some(ElementalDpsTree::Poison(q)) => {
                names = seq!["basic_attack"@, "holy_heal"@, "venom_strike"@, "toxic_cloud"@];
                conds = seq![true, m.holy_heal > 0, q.venom_strike > 0, q.toxic_cloud > 0];
            },
        },
    }
    assert forall|a: int, b: int| 0 <= a < names.len() && 0 <= b < names.len() && a != b implies names[a] != names[b] by {
        if names[a] == names[b] {
            assert(names[a][0] == names[b][0]);
            assert(names[a][5] == names[b][5]);
        }
    }
    lemma_offered(names, conds);
    reveal_with_fuel(offered, 6);
    assert(available_abilities(t) =~= offered(names, conds));
}

/// What each ability costs in mana. The warrior's Taunt costs 10 and Executioner 20; the
/// rogue's Shadow Step 15; the healer's Holy Heal 30, Holy Shield 35 and Resurrection
/// 150; Frostbolt 20, Deep Freeze 25, Ice Lance 15 and Blizzard 70; Fireball 25, Ignite
/// 15 and Firestorm 70; Void Bolt 18, Reality Fracture 30, Void Drain 22 and Null Field
/// 28; Venom Strike 12, Toxic Cloud 20 and Weaken 18. The basic attack, the passive War
/// Fury and the reactions Counter Attack and Undying Rage are free.
pub proof fn lemma_mana_cost_table()
    ensures
        ability_mana_cost("taunt"@) == 10,
        ability_mana_cost("executioner"@) == 20,
        ability_mana_cost("shadow_step"@) == 15,
        ability_mana_cost("holy_heal"@) == 30,
        ability_mana_cost("holy_shield"@) == 35,
        ability_mana_cost("resurrection"@) == 150,
        ability_mana_cost("frostbolt"@) == 20,
        ability_mana_cost("deep_freeze"@) == 25,
        ability_mana_cost("ice_lance"@) == 15,
        ability_mana_cost("blizzard"@) == 70,
        ability_mana_cost("fireball"@) == 25,
        ability_mana_cost("ignite"@) == 15,
        ability_mana_cost("firestorm"@) == 70,
        ability_mana_cost("void_bolt"@) == 18,
        ability_mana_cost("reality_fracture"@) == 30,
        ability_mana_cost("void_drain"@) == 22,
        ability_mana_cost("null_field"@) == 28,
        ability_mana_cost("venom_strike"@) == 12,
        ability_mana_cost("toxic_cloud"@) == 20,
        ability_mana_cost("weaken"@) == 18,
        ability_mana_cost("basic_attack"@) == 0,
        ability_mana_cost("war_fury"@) == 0,
        ability_mana_cost("counter_attack"@) == 0,
        ability_mana_cost("undying_rage"@) == 0,
{
    reveal_strlit("taunt");
    reveal_strlit("executioner");
    reveal_strlit("shadow_step");
    reveal_strlit("holy_heal");
    reveal_strlit("holy_shield");
    reveal_strlit("resurrection");
    reveal_strlit("frostbolt");
    reveal_strlit("deep_freeze");
    reveal_strlit("ice_lance");
    reveal_strlit("blizzard");
    reveal_strlit("fireball");
    reveal_strlit("ignite");
    reveal_strlit("firestorm");
    reveal_strlit("void_bolt");
    reveal_strlit("reality_fracture");
    reveal_strlit("void_drain");
    reveal_strlit("null_field");
    reveal_strlit("venom_strike");
    reveal_strlit("toxic_cloud");
    reveal_strlit("weaken");
    reveal_strlit("basic_attack");
    reveal_strlit("war_fury");
    reveal_strlit("counter_attack");
    reveal_strlit("undying_rage");
    assert("taunt"@.len() == 5);
    assert("executioner"@.len() == 11);
    assert("shadow_step"@.len() == 11);
    assert("holy_heal"@.len() == 9);
    assert("holy_shield"@.len() == 11);
    assert("resurrection"@.len() == 12);
    assert("frostbolt"@.len() == 9);
    assert("deep_freeze"@.len() == 11);
    assert("ice_lance"@.len() == 9);
    assert("blizzard"@.len() == 8);
    assert("fireball"@.len() == 8);
    assert("ignite"@.len() == 6);
    assert("firestorm"@.len() == 9);
    assert("void_bolt"@.len() == 9);
    assert("reality_fracture"@.len() == 16);
    assert("void_drain"@.len() == 10);
    assert("null_field"@.len() == 10);
    assert("venom_strike"@.len() == 12);
    assert("toxic_cloud"@.len() == 11);
    assert("weaken"@.len() == 6);
    assert("basic_attack"@.len() == 12);
    assert("war_fury"@.len() == 8);
    assert("counter_attack"@.len() == 14);
    assert("undying_rage"@.len() == 12);
    assert("shadow_step"@[0] != "executioner"@[0]);
    assert("holy_shield"@[0] != "executioner"@[0]);
    assert("holy_shield"@[0] != "shadow_step"@[0]);
    assert("frostbolt"@[0] != "holy_heal"@[0]);
    assert("deep_freeze"@[0] != "executioner"@[0]);
    assert("deep_freeze"@[0] != "shadow_step"@[0]);
    assert("deep_freeze"@[0] != "holy_shield"@[0]);
    assert("ice_lance"@[0] != "holy_heal"@[0]);
    assert("ice_lance"@[0] != "frostbolt"@[0]);
    assert("fireball"@[0] != "blizzard"@[0]);
    assert("firestorm"@[0] != "holy_heal"@[0]);
    assert("firestorm"@[1] != "frostbolt"@[1]);
    assert("firestorm"@[0] != "ice_lance"@[0]);
    assert("void_bolt"@[0] != "holy_heal"@[0]);
    assert("void_bolt"@[0] != "frostbolt"@[0]);
    assert("void_bolt"@[0] != "ice_lance"@[0]);
    assert("void_bolt"@[0] != "firestorm"@[0]);
    assert("null_field"@[0] != "void_drain"@[0]);
    assert("venom_strike"@[0] != "resurrection"@[0]);
    assert("toxic_cloud"@[0] != "executioner"@[0]);
    assert("toxic_cloud"@[0] != "shadow_step"@[0]);
    assert("toxic_cloud"@[0] != "holy_shield"@[0]);
    assert("toxic_cloud"@[0] != "deep_freeze"@[0]);
    assert("weaken"@[0] != "ignite"@[0]);
    assert("basic_attack"@[0] != "resurrection"@[0]);
    assert("basic_attack"@[0] != "venom_strike"@[0]);
    assert("war_fury"@[0] != "blizzard"@[0]);
    assert("war_fury"@[0] != "fireball"@[0]);
    assert("undying_rage"@[0] != "resurrection"@[0]);
    assert("undying_rage"@[0] != "venom_strike"@[0]);
}

/// The fire branch of a mage's talents, if the mage has chosen fire.
pub open spec fn fire_branch(t: PlayerTalentTree) -> Option<FireBranch> {
    match t {
        PlayerTalentTree::Mage(m) => match m.dps_tree {
            Some(ElementalDpsTree::Fire(f)) => Some(f),
            _ => None,
        },
        _ => None,
    }
}

/// The mage talents of a talent tree, if it is a mage's.
pub open spec fn mage_talents(t: PlayerTalentTree) -> Option<MageTalents> {
    match t {
        PlayerTalentTree::Mage(m) => Some(m),
        _ => None,
    }
}

/// A cast spell is the spell that was named, at the rank learnt in the branch: Frostbolt
/// and Ice Lance come only from an ice branch and Fireball only from a fire branch, each
/// only when named and learnt; and a learnt spell of the branch, named, is cast.
pub proof fn lemma_spell_cast_is_the_named_spell(t: PlayerTalentTree, spell: Seq<char>, rank: u32)
    ensures
        spell_cast(t, spell) == (SpellCast::Frostbolt { rank: rank }) ==> spell == "frostbolt"@
            && ice_branch(t).is_some() && ice_branch(t).unwrap().frostbolt == rank && rank > 0,
        spell_cast(t, spell) == (SpellCast::IceLance { rank: rank }) ==> spell == "ice_lance"@
            && ice_branch(t).is_some() && ice_branch(t).unwrap().ice_lance == rank && rank > 0,
        spell_cast(t, spell) == (SpellCast::Fireball { rank: rank }) ==> spell == "fireball"@
            && fire_branch(t).is_some() && fire_branch(t).unwrap().fireball == rank && rank > 0,
        ice_branch(t).is_some() && ice_branch(t).unwrap().frostbolt > 0 ==> spell_cast(t, "frostbolt"@)
            == (SpellCast::Frostbolt { rank: ice_branch(t).unwrap().frostbolt }),
        ice_branch(t).is_some() && ice_branch(t).unwrap().ice_lance > 0 ==> spell_cast(t, "ice_lance"@)
            == (SpellCast::IceLance { rank: ice_branch(t).unwrap().ice_lance }),
        fire_branch(t).is_some() && fire_branch(t).unwrap().fireball > 0 ==> spell_cast(t, "fireball"@)
            == (SpellCast::Fireball { rank: fire_branch(t).unwrap().fireball }),
{
    reveal_strlit("frostbolt");
    reveal_strlit("ice_lance");
    assert("frostbolt"@[0] != "ice_lance"@[0]);
}

/// A mage who chooses an element gets a branch of that element with no rank spent, which
/// unlocks nothing yet: the abilities on offer are the basic attack, and Holy Heal if it
/// was learnt before.
pub proof fn lemma_chosen_branch_starts_empty(before: Player, after: Player, lowered: Seq<char>, choice: SpecChoice)
    requires
        elemental_choice_ok(before, after, lowered, choice),
        (choice is Chosen),
    ensures
        mage_talents(before.talents).is_some(),
        mage_talents(after.talents).is_some(),
        mage_talents(after.talents).unwrap().dps_tree.is_some(),
        choice == SpecChoice::Chosen(mage_talents(after.talents).unwrap().dps_tree.unwrap().element()),
        mage_talents(after.talents).unwrap().dps_tree.unwrap().total_ranks() == 0,
        elemental_ranks(after.talents) == 0,
        mage_talents(after.talents).unwrap().holy_heal == mage_talents(before.talents).unwrap().holy_heal,
        available_abilities(after.talents) == seq!["basic_attack"@] + listed_if(
            mage_talents(before.talents).unwrap().holy_heal > 0,
            "holy_heal"@,
        ),
{
    let e = choice->Chosen_0;
    ElementalDpsTree::lemma_fresh_branch(e);
    if let PlayerTalentTree::Mage(mb) = before.talents {
        assert(available_abilities(after.talents) =~= seq!["basic_attack"@] + listed_if(mb.holy_heal > 0, "holy_heal"@));
    }
}

/// A new hero starts with the basic attack only, except that a Warrior Tank also has
/// Taunt and a Warrior DPS War Fury from the start; a Rogue Assassin's Flurry of Blades
/// changes the basic attack rather than adding an ability.
pub proof fn lemma_starting_abilities(class: PlayerClass, spec: PlayerSpec)
    ensures
        available_abilities(with_spec_talent(starting_talents(PlayerClass::Warrior), PlayerSpec::WarriorTank))
            == seq!["basic_attack"@, "taunt"@],
        available_abilities(with_spec_talent(starting_talents(PlayerClass::Warrior), PlayerSpec::WarriorDPS))
            == seq!["basic_attack"@, "war_fury"@],
        spec != PlayerSpec::WarriorTank && spec != PlayerSpec::WarriorDPS ==> available_abilities(
            with_spec_talent(starting_talents(class), spec),
        ) == seq!["basic_attack"@],
        has_flurry(with_spec_talent(starting_talents(PlayerClass::Rogue), PlayerSpec::RogueAssassin)),
{
    assert(available_abilities(with_spec_talent(starting_talents(PlayerClass::Warrior), PlayerSpec::WarriorTank))
        =~= seq!["basic_attack"@, "taunt"@]);
    assert(available_abilities(with_spec_talent(starting_talents(PlayerClass::Warrior), PlayerSpec::WarriorDPS))
        =~= seq!["basic_attack"@, "war_fury"@]);
    assert(available_abilities(with_spec_talent(starting_talents(class), spec)) =~= seq!["basic_attack"@]
        || spec == PlayerSpec::WarriorTank || spec == PlayerSpec::WarriorDPS);
}

} // verus!
