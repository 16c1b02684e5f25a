# Koktel Tales

A turn-based, wave-fighting role-playing game.

- `src/` is a library verified with Verus: the whole-number rules of the game —
  talent trees and what they unlock, ability costs and cooldowns, which abilities
  may be used and with what effect, elemental specialisations and talent points,
  levels, the wave schedule and its enemies, loot, and the merchant's stock and
  sales. `src/laws.rs` holds the properties that span several operations.
- `app/` is the game program built with macroquad: windows, input and drawing,
  and the floating-point side of combat (hit points, mana, damage, critical and
  block chances, experience), which asks the library for every rule it applies.
- `tests/` exercises the library.
