# Terradventure

A 2D adventure game built on Bevy. The game's rules live in a library that
is verified with Verus; the program around it drives the engine.

## Layout

- `src/` — the verified library. Each public function states in its contract
  what it returns or changes:
  - `items/`, `inventory.rs`, `ore.rs` — items, stacks, inventory slots, ores;
  - `loot_table.rs`, `items/loot_table.rs`, `chest.rs` — weighted loot rolls
    and chest loot;
  - `effects.rs` — timed effects and how they merge and wear off;
  - `animation.rs` — which animation of a sprite plays and when it ends;
  - `lang.rs` — translation files parsed (through `serde_json`), flattened
    to dotted keys, and lookups;
  - `npc/` — characters, their translated dialogs, dialog stepping, shops;
  - `commands.rs` — the console commands `give` and `tp`;
  - `mob/`, `music.rs`, `assets.rs`, `interactable.rs`, `gui/` — creatures,
    asset paths, interaction flags, menu choices, key bindings and the
    language chooser;
  - `text.rs`, `assoc.rs` — text helpers (splitting, paths, decimal numbers)
    and association lists seen as maps;
  - `random.rs` — the two calls into `rand`, with what they promise.
- `tests/` — tests of the library on concrete values.
- `app/` — the game program: Bevy plugins and systems, file reading and
  writing, the console thread, and the parts computed on floats.
