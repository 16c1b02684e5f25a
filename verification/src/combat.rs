//! Conditions an enemy suffers in combat: frozen, burning, poisoned.
use vstd::prelude::*;

verus! {

/// Damage a burning enemy takes each turn.
pub const BURN_DAMAGE: u32 = 35;

/// Damage each poison stack deals each turn.
pub const POISON_DAMAGE_PER_STACK: u32 = 15;

/// Turns a Fireball sets the enemy burning for.
pub const FIREBALL_BURN_TURNS: u32 = 3;

/// The conditions on an enemy.
#[derive(Debug, Clone, Copy, PartialEq, Eq, Structural)]
pub struct EnemyStatus {
    pub is_frozen: bool,
    pub poison_stacks: u32,
    pub ignite_turns: u32,
}

/// Damage over time dealt at the end of a player's turn.
#[derive(Debug, Clone, Copy, PartialEq, Eq, Structural)]
pub struct DotTick {
    /// Burn damage, when the enemy was burning.
    pub burn: Option<u32>,
    /// Poison damage, when the enemy carries poison stacks.
    pub poison: Option<u64>,
}

impl EnemyStatus {
    /// Neither frozen, nor poisoned, nor burning.
    pub fn new() -> (s: Self)
        ensures
            !s.is_frozen,
            s.poison_stacks == 0,
            s.ignite_turns == 0,
    {
        EnemyStatus { is_frozen: false, poison_stacks: 0, ignite_turns: 0 }
    }

    /// Damage over time for this turn: a burning enemy burns for one turn less; poison
    /// stacks stay.
    pub fn tick_dots(&mut self) -> (t: DotTick)
        ensures
            t == dot_damage(*old(self)),
            *final(self) == dot_step(*old(self)),
    {
        let burn = if self.ignite_turns > 0 {
            self.ignite_turns = self.ignite_turns - 1;
            Some(BURN_DAMAGE)
        } else {
            None
        };
        let poison = if self.poison_stacks > 0 {
            Some(self.poison_stacks as u64 * POISON_DAMAGE_PER_STACK as u64)
        } else {
            None
        };
        DotTick { burn, poison }
    }

    /// A Frostbolt hit: the enemy is frozen.
    pub fn freeze(&mut self)
        ensures
            *final(self) == (EnemyStatus { is_frozen: true, ..*old(self) }),
    {
        self.is_frozen = true;
    }

    /// An Ice Lance hit: a frozen enemy is shattered, which doubles the damage, and
    /// thaws. Returns whether the enemy was frozen.
    pub fn shatter(&mut self) -> (doubled: bool)
        ensures
            doubled == old(self).is_frozen,
            *final(self) == (EnemyStatus { is_frozen: false, ..*old(self) }),
    {
        let doubled = self.is_frozen;
        self.is_frozen = false;
        doubled
    }

    /// A Fireball hit: the enemy burns for `FIREBALL_BURN_TURNS` turns from now on,
    /// whatever was left of an earlier burn.
    pub fn ignite(&mut self)
        ensures
            *final(self) == (EnemyStatus { ignite_turns: FIREBALL_BURN_TURNS, ..*old(self) }),
    {
        self.ignite_turns = FIREBALL_BURN_TURNS;
    }

    /// Whether the enemy loses its attack this turn: a frozen enemy does, and thaws.
    pub fn skips_attack(&mut self) -> (skips: bool)
        ensures
            skips == old(self).is_frozen,
            !final(self).is_frozen,
            final(self).poison_stacks == old(self).poison_stacks,
            final(self).ignite_turns == old(self).ignite_turns,
    {
        if self.is_frozen {
            self.is_frozen = false;
            true
        } else {
            false
        }
    }
}

/// Damage over time an enemy with these conditions takes this turn.
pub open spec fn dot_damage(s: EnemyStatus) -> DotTick {
    DotTick {
        burn: if s.ignite_turns > 0 { Some(BURN_DAMAGE) } else { None },
        poison: if s.poison_stacks > 0 {
            Some((s.poison_stacks * POISON_DAMAGE_PER_STACK) as u64)
        } else {
            None
        },
    }
}

/// The conditions after a turn of damage over time.
pub open spec fn dot_step(s: EnemyStatus) -> EnemyStatus {
    EnemyStatus { ignite_turns: if s.ignite_turns > 0 { (s.ignite_turns - 1) as u32 } else { 0 }, ..s }
}

/// Burn damage dealt over `n` turns.
pub open spec fn total_burn(s: EnemyStatus, n: nat) -> int
    decreases n,
{
    if n == 0 {
        0
    } else {
        (if s.ignite_turns > 0 { BURN_DAMAGE as int } else { 0 }) + total_burn(dot_step(s), (n - 1) as nat)
    }
}

/// An enemy set burning for `t` turns takes burn damage on exactly `t` turns, and no
/// more after them.
pub proof fn lemma_burn_runs_out(s: EnemyStatus, n: nat)
    ensures
        total_burn(s, n) == BURN_DAMAGE * (if n < s.ignite_turns { n as int } else { s.ignite_turns as int }),
    decreases n,
{
    if n > 0 {
        lemma_burn_runs_out(dot_step(s), (n - 1) as nat);
    }
}

/// A Fireball's burn deals its damage on the next three turns, and none after them.
pub proof fn lemma_fireball_burns_three_turns(s: EnemyStatus, n: nat)
    ensures
        total_burn(EnemyStatus { ignite_turns: FIREBALL_BURN_TURNS, ..s }, n)
            == BURN_DAMAGE * (if n < 3 { n as int } else { 3 }),
{
    lemma_burn_runs_out(EnemyStatus { ignite_turns: FIREBALL_BURN_TURNS, ..s }, n);
}

} // verus!
