//! Game rules of a turn-based wave-fighting role-playing game: classes, talents,
//! abilities and their costs, cooldowns, waves and their enemies, loot and the shop.
//!
//! The rules here are whole-number ones. Hit points, mana, damage, chances and
//! experience are floating point and live with the game program.
pub mod balance;
pub mod chance;
pub mod combat;
pub mod cooldowns;
pub mod inventory;
pub mod laws;
pub mod mechanics;
pub mod shop;
pub mod talents;
pub mod text;
pub mod wave_manager;
