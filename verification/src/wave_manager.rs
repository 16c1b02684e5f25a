//! Waves of enemies: every fifth wave is a boss.
use vstd::prelude::*;
use crate::text::{decimal, with_number};
use vstd::string::*;

verus! {

/// The enemy a wave sends, with whole-number statistics.
pub struct EnemySpawn {
    pub name: String,
    pub max_hp: u64,
    pub armor: u64,
    pub exp_reward: u64,
    pub gold_reward: u32,
}

/// Which enemy a wave sends.
#[derive(Debug, Clone, Copy, PartialEq, Eq, Structural)]
pub enum EnemyKind {
    /// Every fifth wave.
    Boss,
    /// Even waves from 5 to 10 that are not boss waves.
    EliteShadowAssassin,
    /// Odd waves from 5 to 10 that are not boss waves.
    CorruptedGolem,
    /// Every other wave.
    CursedSkeleton,
}

pub open spec fn enemy_kind(wave: u32) -> EnemyKind {
    if wave % 5 == 0 {
        EnemyKind::Boss
    } else if 5 <= wave <= 10 {
        if wave % 2 == 0 { EnemyKind::EliteShadowAssassin } else { EnemyKind::CorruptedGolem }
    } else {
        EnemyKind::CursedSkeleton
    }
}

/// Gold a wave's enemy drops, per wave number.
pub open spec fn gold_per_wave(kind: EnemyKind) -> int {
    match kind {
        EnemyKind::Boss => 100,
        EnemyKind::EliteShadowAssassin => 25,
        EnemyKind::CorruptedGolem => 30,
        EnemyKind::CursedSkeleton => 15,
    }
}

/// Hit points, armor and experience of a wave's enemy, per wave number.
pub open spec fn stats_per_wave(kind: EnemyKind) -> (int, int, int) {
    match kind {
        EnemyKind::Boss => (350, 12, 150),
        EnemyKind::EliteShadowAssassin => (140, 6, 45),
        EnemyKind::CorruptedGolem => (190, 10, 50),
        EnemyKind::CursedSkeleton => (80, 3, 20),
    }
}

/// Name of a wave's enemy.
pub open spec fn enemy_name(wave: u32) -> Seq<char> {
    match enemy_kind(wave) {
        EnemyKind::Boss => "Archdemon Overlord (Boss Tier "@ + decimal((wave / 5) as nat) + ")"@,
        EnemyKind::EliteShadowAssassin => "Elite Shadow Assassin"@,
        EnemyKind::CorruptedGolem => "Corrupted Golem"@,
        EnemyKind::CursedSkeleton => "Cursed Skeleton"@,
    }
}

/// A wave number that sends a boss.
pub open spec fn is_boss_wave(wave: int) -> bool {
    wave % 5 == 0
}

/// Waves left from `wave` until the next boss wave: the least `n` with `wave + n` a
/// multiple of five.
pub open spec fn boss_countdown(wave: u32) -> int {
    (5 - wave % 5) % 5
}

/// Tracks the current wave and the bosses slain.
pub struct WaveManager {
    pub current_wave: u32,
    pub total_boss_killed: u32,
}

impl WaveManager {
    /// Starts at wave one with no boss slain.
    pub fn new() -> (w: Self)
        ensures
            w.current_wave == 1,
            w.total_boss_killed == 0,
    {
        WaveManager { current_wave: 1, total_boss_killed: 0 }
    }

    /// Waves left until the next boss wave; zero during a boss wave.
    pub fn waves_until_next_boss(&self) -> (n: u32)
        ensures
            n == boss_countdown(self.current_wave),
    {
        if self.current_wave % 5 == 0 {
            0
        } else {
            5 - (self.current_wave % 5)
        }
    }

    /// The enemy of the current wave: its statistics grow linearly with the wave number.
    pub fn spawn_wave_enemy(&self) -> (e: EnemySpawn)
        requires
            self.current_wave * gold_per_wave(enemy_kind(self.current_wave)) <= u32::MAX,
        ensures
            e.name@ == enemy_name(self.current_wave),
            e.max_hp == self.current_wave * stats_per_wave(enemy_kind(self.current_wave)).0,
            e.armor == self.current_wave * stats_per_wave(enemy_kind(self.current_wave)).1,
            e.exp_reward == self.current_wave * stats_per_wave(enemy_kind(self.current_wave)).2,
            e.gold_reward == self.current_wave * gold_per_wave(enemy_kind(self.current_wave)),
    {
        let wave: u32 = self.current_wave;
        let w: u64 = wave as u64;
        if wave % 5 == 0 {
            EnemySpawn {
                name: with_number("Archdemon Overlord (Boss Tier ", (wave / 5) as u64, ")"),
                max_hp: w * 350,
                armor: w * 12,
                exp_reward: w * 150,
                gold_reward: wave * 100,
            }
        } else if wave >= 5 && wave <= 10 {
            if wave % 2 == 0 {
                EnemySpawn {
                    name: "Elite Shadow Assassin".to_owned(),
                    max_hp: w * 140,
                    armor: w * 6,
                    exp_reward: w * 45,
                    gold_reward: wave * 25,
                }
            } else {
                EnemySpawn {
                    name: "Corrupted Golem".to_owned(),
                    max_hp: w * 190,
                    armor: w * 10,
                    exp_reward: w * 50,
                    gold_reward: wave * 30,
                }
            }
        } else {
            EnemySpawn {
                name: "Cursed Skeleton".to_owned(),
                max_hp: w * 80,
                armor: w * 3,
                exp_reward: w * 20,
                gold_reward: wave * 15,
            }
        }
    }
}

/// A campaign enemy before its wave scaling: the game multiplies hit points, armor and
/// experience by `1 + (wave - 1) / 4`; gold already includes the wave bonus.
pub struct WaveEnemy {
    pub name: String,
    pub base_hp: u32,
    pub base_armor: u32,
    pub base_exp: u32,
    pub gold_reward: u32,
}

/// Name, hit points, armor, experience and gold of the campaign enemy of a wave, before
/// scaling: a golem boss every fifth wave, otherwise a foe that grows with the wave's
/// place between two bosses.
pub open spec fn wave_enemy_table(wave: u32) -> (Seq<char>, int, int, int, int) {
    if wave % 5 == 0 {
        ("Ancient Golem Boss"@, 2000, 60, 800, 500 + 50 * wave)
    } else if wave % 5 == 1 {
        ("Goblin Scout"@, 80, 5, 75, 30 + 10 * wave)
    } else if wave % 5 == 2 {
        ("Orc Warrior"@, 200, 12, 150, 60 + 10 * wave)
    } else if wave % 5 == 3 {
        ("Dark Knight"@, 450, 22, 280, 110 + 10 * wave)
    } else {
        ("Fire Dragon"@, 1000, 38, 500, 250 + 10 * wave)
    }
}

/// Whether the gold of a wave's campaign enemy fits in a `u32`.
pub fn wave_enemy_gold_fits(wave: u32) -> (fits: bool)
    ensures
        fits == (wave_enemy_table(wave).4 <= u32::MAX),
{
    let w: u64 = wave as u64;
    let gold: u64 = if wave % 5 == 0 {
        500 + 50 * w
    } else if wave % 5 == 1 {
        30 + 10 * w
    } else if wave % 5 == 2 {
        60 + 10 * w
    } else if wave % 5 == 3 {
        110 + 10 * w
    } else {
        250 + 10 * w
    };
    gold <= u32::MAX as u64
}

/// The campaign enemy of a wave, named with its wave.
pub fn spawn_enemy_for_wave(wave: u32) -> (e: WaveEnemy)
    requires
        wave_enemy_table(wave).4 <= u32::MAX,
    ensures
        e.name@ == wave_enemy_table(wave).0 + " (Wave "@ + decimal(wave as nat) + ")"@,
        e.base_hp == wave_enemy_table(wave).1,
        e.base_armor == wave_enemy_table(wave).2,
        e.base_exp == wave_enemy_table(wave).3,
        e.gold_reward == wave_enemy_table(wave).4,
{
    if wave % 5 == 0 {
        let mut name = "Ancient Golem Boss".to_owned();
        name.append(" (Wave ");
        return WaveEnemy {
            name: with_number(name.as_str(), wave as u64, ")"),
            base_hp: 2000,
            base_armor: 60,
            base_exp: 800,
            gold_reward: 500 + wave * 50,
        };
    }
    let (label, hp, armor, exp, gold): (&str, u32, u32, u32, u32) = if wave % 5 == 1 {
        ("Goblin Scout", 80, 5, 75, 30)
    } else if wave % 5 == 2 {
        ("Orc Warrior", 200, 12, 150, 60)
    } else if wave % 5 == 3 {
        ("Dark Knight", 450, 22, 280, 110)
    } else {
        ("Fire Dragon", 1000, 38, 500, 250)
    };
    let mut name = label.to_owned();
    name.append(" (Wave ");
    WaveEnemy {
        name: with_number(name.as_str(), wave as u64, ")"),
        base_hp: hp,
        base_armor: armor,
        base_exp: exp,
        gold_reward: gold + wave * 10,
    }
}

/// The campaign foes by their place between two bosses, with the gold that grows by ten
/// per wave: a Goblin Scout (80 hp, 5 armor, 75 exp, 30 gold), an Orc Warrior (200, 12,
/// 150, 60), a Dark Knight (450, 22, 280, 110) and a Fire Dragon (1000, 38, 500, 250);
/// every fifth wave the Ancient Golem Boss (2000, 60, 800, 500 gold plus 50 per wave).
pub proof fn lemma_wave_enemy_by_place(wave: u32)
    ensures
        wave % 5 == 1 ==> wave_enemy_table(wave) == ("Goblin Scout"@, 80int, 5int, 75int, 30 + 10 * wave),
        wave % 5 == 2 ==> wave_enemy_table(wave) == ("Orc Warrior"@, 200int, 12int, 150int, 60 + 10 * wave),
        wave % 5 == 3 ==> wave_enemy_table(wave) == ("Dark Knight"@, 450int, 22int, 280int, 110 + 10 * wave),
        wave % 5 == 4 ==> wave_enemy_table(wave) == ("Fire Dragon"@, 1000int, 38int, 500int, 250 + 10 * wave),
        wave % 5 == 0 ==> wave_enemy_table(wave) == ("Ancient Golem Boss"@, 2000int, 60int, 800int, 500 + 50 * wave),
{
}

/// Between two bosses each foe is stronger than the one before it in every statistic and
/// in gold, and the boss is stronger than all of them; five waves later the same foe
/// comes back with the same statistics and 50 more gold.
pub proof fn lemma_wave_enemies_grow(a: u32, b: u32)
    ensures
        a % 5 != 0 && b % 5 != 0 && a % 5 < b % 5 ==> {
            &&& wave_enemy_table(a).1 < wave_enemy_table(b).1
            &&& wave_enemy_table(a).2 < wave_enemy_table(b).2
            &&& wave_enemy_table(a).3 < wave_enemy_table(b).3
        },
        a % 5 != 0 && b % 5 == 0 ==> {
            &&& wave_enemy_table(a).1 < wave_enemy_table(b).1
            &&& wave_enemy_table(a).2 < wave_enemy_table(b).2
            &&& wave_enemy_table(a).3 < wave_enemy_table(b).3
        },
        a % 5 != 0 && a / 5 == b / 5 && a % 5 < b % 5 ==> wave_enemy_table(a).4 < wave_enemy_table(b).4,
        a % 5 != 0 && b == a + 5 ==> {
            &&& wave_enemy_table(b).0 == wave_enemy_table(a).0
            &&& wave_enemy_table(b).1 == wave_enemy_table(a).1
            &&& wave_enemy_table(b).2 == wave_enemy_table(a).2
            &&& wave_enemy_table(b).3 == wave_enemy_table(a).3
            &&& wave_enemy_table(b).4 == wave_enemy_table(a).4 + 50
        },
{
}

/// The enemies of the endless waves: every fifth wave a boss, the Archdemon Overlord;
/// from wave 5 to 10 an Elite Shadow Assassin on even waves and a Corrupted Golem on odd
/// ones; a Cursed Skeleton otherwise. Per wave number a boss has 350 hit points, 12
/// armor, 150 experience and 100 gold, an assassin 140, 6, 45 and 25, a golem 190, 10, 50
/// and 30, a skeleton 80, 3, 20 and 15: the boss beats every other enemy in each.
pub proof fn lemma_endless_wave_enemies(wave: u32, kind: EnemyKind)
    ensures
        wave % 5 == 0 ==> enemy_kind(wave) == EnemyKind::Boss,
        wave % 5 != 0 && 5 <= wave <= 10 && wave % 2 == 0 ==> enemy_kind(wave) == EnemyKind::EliteShadowAssassin,
        wave % 5 != 0 && 5 <= wave <= 10 && wave % 2 == 1 ==> enemy_kind(wave) == EnemyKind::CorruptedGolem,
        wave % 5 != 0 && !(5 <= wave <= 10) ==> enemy_kind(wave) == EnemyKind::CursedSkeleton,
        stats_per_wave(EnemyKind::Boss) == (350int, 12int, 150int),
        stats_per_wave(EnemyKind::EliteShadowAssassin) == (140int, 6int, 45int),
        stats_per_wave(EnemyKind::CorruptedGolem) == (190int, 10int, 50int),
        stats_per_wave(EnemyKind::CursedSkeleton) == (80int, 3int, 20int),
        gold_per_wave(EnemyKind::Boss) == 100,
        gold_per_wave(EnemyKind::EliteShadowAssassin) == 25,
        gold_per_wave(EnemyKind::CorruptedGolem) == 30,
        gold_per_wave(EnemyKind::CursedSkeleton) == 15,
        wave % 5 == 0 ==> enemy_name(wave) == "Archdemon Overlord (Boss Tier "@ + decimal((wave / 5) as nat) + ")"@,
        enemy_kind(wave) == EnemyKind::EliteShadowAssassin ==> enemy_name(wave) == "Elite Shadow Assassin"@,
        enemy_kind(wave) == EnemyKind::CorruptedGolem ==> enemy_name(wave) == "Corrupted Golem"@,
        enemy_kind(wave) == EnemyKind::CursedSkeleton ==> enemy_name(wave) == "Cursed Skeleton"@,
        kind != EnemyKind::Boss ==> {
            &&& stats_per_wave(kind).0 < stats_per_wave(EnemyKind::Boss).0
            &&& stats_per_wave(kind).1 < stats_per_wave(EnemyKind::Boss).1
            &&& stats_per_wave(kind).2 < stats_per_wave(EnemyKind::Boss).2
            &&& gold_per_wave(kind) < gold_per_wave(EnemyKind::Boss)
        },
{
}

/// The countdown is the least number of waves to the next multiple of five: it is below
/// five and lands on a multiple of five.
pub proof fn lemma_countdown_lands_on_boss(wave: u32)
    ensures
        0 <= boss_countdown(wave) < 5,
        is_boss_wave(wave + boss_countdown(wave)),
        forall|n: int| 0 <= n < boss_countdown(wave) ==> !#[trigger] is_boss_wave(wave + n),
{
}

/// The countdown stands at zero on exactly the waves that send a boss.
pub proof fn lemma_boss_wave(wave: u32)
    ensures
        (boss_countdown(wave) == 0) <==> (enemy_kind(wave) == EnemyKind::Boss),
{
}

/// Moving to the next wave brings the boss one wave closer; after a boss wave the
/// countdown starts again at four.
pub proof fn lemma_countdown_next_wave(wave: u32)
    requires
        wave < u32::MAX,
    ensures
        boss_countdown((wave + 1) as u32) == if boss_countdown(wave) == 0 { 4 } else { boss_countdown(wave) - 1 },
{
}

} // verus!
