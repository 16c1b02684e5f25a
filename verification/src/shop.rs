//! The merchant between waves: three offers, priced by wave, bought with gold.
use vstd::prelude::*;
use crate::chance::{gen_ratio, thread_rng};
use crate::mechanics::{spec_level_up_gains, Player, PlayerClass, StatModifier};
use crate::text::{decimal, with_number};

verus! {

/// An offer: its name, its price in gold and the bonus it grants.
pub struct ShopItem {
    pub name: String,
    pub price: u32,
    pub modifier: StatModifier,
}

/// The offers still for sale.
pub struct Shop {
    pub items_for_sale: Vec<ShopItem>,
}

/// An offer with the given name, price and bonus.
pub open spec fn offer_is(item: ShopItem, name: Seq<char>, price: int, modifier: StatModifier) -> bool {
    &&& item.name@ == name
    &&& item.price == price
    &&& item.modifier == modifier
}

/// First slot: the class weapon, +4 of the class's attribute per wave.
pub open spec fn weapon_offer(item: ShopItem, class: PlayerClass, wave: u32) -> bool {
    let bonus: nat = (4 * wave) as nat;
    let price: int = 15 + 10 * wave;
    match class {
        PlayerClass::Warrior => offer_is(item, "Vanguard Greatsword (+"@ + decimal(bonus) + " Str)"@, price, StatModifier::AddStrength(bonus as u32)),
        PlayerClass::Rogue => offer_is(item, "Deadly Stiletto (+"@ + decimal(bonus) + " Agi)"@, price, StatModifier::AddAgility(bonus as u32)),
        PlayerClass::Mage => offer_is(item, "Archmage Staff (+"@ + decimal(bonus) + " Int)"@, price, StatModifier::AddIntelligence(bonus as u32)),
    }
}

/// Second slot, armour variant.
pub open spec fn platemail_offer(item: ShopItem, wave: u32) -> bool {
    let armor: nat = (5 + 3 * wave) as nat;
    offer_is(item, "Reinforced Platemail (+"@ + decimal(armor) + " Armor)"@, 10 + 8 * wave, StatModifier::AddArmor(armor as u32))
}

/// Second slot, health variant.
pub open spec fn amulet_offer(item: ShopItem, wave: u32) -> bool {
    let hp: nat = (20 + 15 * wave) as nat;
    offer_is(item, "Vitality Amulet (+"@ + decimal(hp) + " Max HP)"@, 12 + 8 * wave, StatModifier::AddMaxHp(hp as u32))
}

/// Third slot, critical-chance variant: 2% plus 1% per wave.
pub open spec fn ring_offer(item: ShopItem, wave: u32) -> bool {
    let crit: nat = (2 + wave) as nat;
    offer_is(item, "Sharp Eye Ring (+"@ + decimal(crit) + "% Crit)"@, 20 + 12 * wave, StatModifier::AddCritChance(crit as u32))
}

/// Third slot, mana variant.
pub open spec fn crystal_offer(item: ShopItem, wave: u32) -> bool {
    let mana: nat = (15 + 10 * wave) as nat;
    offer_is(item, "Ancient Mana Crystal (+"@ + decimal(mana) + " Max Mana)"@, 10 + 6 * wave, StatModifier::AddMaxMana(mana as u32))
}

/// Two players agree on everything but their gold.
pub open spec fn same_but_gold(a: Player, b: Player) -> bool {
    &&& a.name == b.name
    &&& a.level == b.level
    &&& a.talent_points == b.talent_points
    &&& a.class == b.class
    &&& a.weapon_style == b.weapon_style
    &&& a.talents == b.talents
    &&& a.cooldowns == b.cooldowns
    &&& a.spec == b.spec
}

impl Shop {
    /// Stocks the shop for a wave: the class weapon, then a coin flip between armour and
    /// an amulet, then a coin flip between a crit ring and a mana crystal.
    pub fn generate_shop_stock(player: &Player, wave: u32) -> (shop: Self)
        requires
            20 + 15 * wave <= u32::MAX,
        ensures
            shop.items_for_sale@.len() == 3,
            weapon_offer(shop.items_for_sale@[0], player.class, wave),
            platemail_offer(shop.items_for_sale@[1], wave) || amulet_offer(shop.items_for_sale@[1], wave),
            ring_offer(shop.items_for_sale@[2], wave) || crystal_offer(shop.items_for_sale@[2], wave),
    {
        let mut rng = thread_rng();
        let armor_coin = gen_ratio(&mut rng, 1, 2);
        let ring_coin = gen_ratio(&mut rng, 1, 2);
        Shop::stock_with_coins(player.class, wave, armor_coin, ring_coin)
    }

    /// The stock of a wave for a class, given the two coin flips: the class weapon,
    /// then platemail when `armor_coin` is heads and an amulet otherwise, then a crit
    /// ring when `ring_coin` is heads and a mana crystal otherwise.
    pub fn stock_with_coins(player_class: PlayerClass, wave: u32, armor_coin: bool, ring_coin: bool) -> (shop: Self)
        requires
            20 + 15 * wave <= u32::MAX,
        ensures
            shop.items_for_sale@.len() == 3,
            weapon_offer(shop.items_for_sale@[0], player_class, wave),
            if armor_coin {
                platemail_offer(shop.items_for_sale@[1], wave)
            } else {
                amulet_offer(shop.items_for_sale@[1], wave)
            },
            if ring_coin {
                ring_offer(shop.items_for_sale@[2], wave)
            } else {
                crystal_offer(shop.items_for_sale@[2], wave)
            },
    {
        let mut items: Vec<ShopItem> = Vec::new();
        let bonus: u32 = wave * 4;
        let weapon_price: u32 = 15 + wave * 10;
        let weapon = match player_class {
            PlayerClass::Warrior => ShopItem {
                name: with_number("Vanguard Greatsword (+", bonus as u64, " Str)"),
                price: weapon_price,
                modifier: StatModifier::AddStrength(bonus),
            },
            PlayerClass::Rogue => ShopItem {
                name: with_number("Deadly Stiletto (+", bonus as u64, " Agi)"),
                price: weapon_price,
                modifier: StatModifier::AddAgility(bonus),
            },
            PlayerClass::Mage => ShopItem {
                name: with_number("Archmage Staff (+", bonus as u64, " Int)"),
                price: weapon_price,
                modifier: StatModifier::AddIntelligence(bonus),
            },
        };
        items.push(weapon);

        let armor_val: u32 = 5 + wave * 3;
        let hp_val: u32 = 20 + wave * 15;
        if armor_coin {
            items.push(ShopItem {
                name: with_number("Reinforced Platemail (+", armor_val as u64, " Armor)"),
                price: 10 + wave * 8,
                modifier: StatModifier::AddArmor(armor_val),
            });
        } else {
            items.push(ShopItem {
                name: with_number("Vitality Amulet (+", hp_val as u64, " Max HP)"),
                price: 12 + wave * 8,
                modifier: StatModifier::AddMaxHp(hp_val),
            });
        }

        let crit_val: u32 = 2 + wave;
        let mana_val: u32 = 15 + wave * 10;
        if ring_coin {
            items.push(ShopItem {
                name: with_number("Sharp Eye Ring (+", crit_val as u64, "% Crit)"),
                price: 20 + wave * 12,
                modifier: StatModifier::AddCritChance(crit_val),
            });
        } else {
            items.push(ShopItem {
                name: with_number("Ancient Mana Crystal (+", mana_val as u64, " Max Mana)"),
                price: 10 + wave * 6,
                modifier: StatModifier::AddMaxMana(mana_val),
            });
        }
        Shop { items_for_sale: items }
    }

    /// Buys the offer at `index`: when it exists and the player's gold covers its price,
    /// the price is paid, the offer leaves the shop and its bonus is returned for the
    /// player's statistics. Otherwise nothing changes.
    pub fn buy_item(&mut self, player: &mut Player, index: usize) -> (bought: Option<StatModifier>)
        ensures
            if index < old(self).items_for_sale@.len() && old(player).gold >= old(self).items_for_sale@[index as int].price {
                &&& bought == Some(old(self).items_for_sale@[index as int].modifier)
                &&& final(player).gold == old(player).gold - old(self).items_for_sale@[index as int].price
                &&& same_but_gold(*final(player), *old(player))
                &&& final(self).items_for_sale@ == old(self).items_for_sale@.remove(index as int)
            } else {
                &&& bought == None::<StatModifier>
                &&& *final(player) == *old(player)
                &&& final(self).items_for_sale@ == old(self).items_for_sale@
            },
    {
        if index < self.items_for_sale.len() {
            let price: u32 = self.items_for_sale[index].price;
            if player.gold >= price {
                player.gold = player.gold - price;
                let item = self.items_for_sale.remove(index);
                return Some(item.modifier);
            }
        }
        None
    }
}

/// The class weapon raises the class's own main attribute, the one a level up raises by
/// three: a warrior's strength, a rogue's agility, a mage's intelligence, by four per
/// wave; it costs 15 gold plus 10 per wave.
pub proof fn lemma_weapon_raises_main_attribute(item: ShopItem, class: PlayerClass, wave: u32)
    requires
        weapon_offer(item, class, wave),
        4 * wave <= u32::MAX,
    ensures
        item.price == 15 + 10 * wave,
        match item.modifier {
            StatModifier::AddStrength(b) => spec_level_up_gains(class).strength == 3 && b == 4 * wave,
            StatModifier::AddAgility(b) => spec_level_up_gains(class).agility == 3 && b == 4 * wave,
            StatModifier::AddIntelligence(b) => spec_level_up_gains(class).intelligence == 3 && b == 4 * wave,
            _ => false,
        },
        class == PlayerClass::Warrior ==> item.name@ == "Vanguard Greatsword (+"@ + decimal((4 * wave) as nat) + " Str)"@,
        class == PlayerClass::Rogue ==> item.name@ == "Deadly Stiletto (+"@ + decimal((4 * wave) as nat) + " Agi)"@,
        class == PlayerClass::Mage ==> item.name@ == "Archmage Staff (+"@ + decimal((4 * wave) as nat) + " Int)"@,
        class == PlayerClass::Warrior ==> item.modifier == StatModifier::AddStrength((4 * wave) as u32),
        class == PlayerClass::Rogue ==> item.modifier == StatModifier::AddAgility((4 * wave) as u32),
        class == PlayerClass::Mage ==> item.modifier == StatModifier::AddIntelligence((4 * wave) as u32),
{
}

/// The second and third offers: platemail of 5 armor plus 3 per wave for 10 gold plus 8
/// per wave, or an amulet of 20 hit points plus 15 per wave for 12 plus 8 per wave; then
/// a ring of 2% crit plus 1% per wave for 20 plus 12 per wave, or a crystal of 15 mana
/// plus 10 per wave for 10 plus 6 per wave.
pub proof fn lemma_other_offers(item: ShopItem, wave: u32)
    requires
        20 + 15 * wave <= u32::MAX,
    ensures
        platemail_offer(item, wave) ==> item.modifier == StatModifier::AddArmor((5 + 3 * wave) as u32)
            && item.price == 10 + 8 * wave,
        amulet_offer(item, wave) ==> item.modifier == StatModifier::AddMaxHp((20 + 15 * wave) as u32)
            && item.price == 12 + 8 * wave,
        ring_offer(item, wave) ==> item.modifier == StatModifier::AddCritChance((2 + wave) as u32)
            && item.price == 20 + 12 * wave,
        crystal_offer(item, wave) ==> item.modifier == StatModifier::AddMaxMana((15 + 10 * wave) as u32)
            && item.price == 10 + 6 * wave,
{
}

} // verus!
