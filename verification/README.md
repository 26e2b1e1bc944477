# What May Become — game rules, verified

The rules of a hero-based multiplayer RPG, written in Verus and proved
against their contracts.

- `src/identity.rs` — a client's 256-bit identity and the reducer timestamp;
  the identity's hexadecimal form comes from `spacetimedb::Identity::to_hex`.
- `src/tables.rs` — the player and hero rows, and the scan for a living hero.
- `src/reducers.rs` — the server's reducers (`on_connect`, `on_disconnect`,
  `create_hero`, `move_hero`) as functions from what was read to what is
  written, with the permadeath rule and its laws.
- `src/opening.rs` — the opening event (the attack on the hero's town): its
  phases, the four choices, the origins and fame they give, and its laws.
- `src/session.rs` — the client's decisions: finding the player's own hero,
  choosing which heroes to show or remove, steering, and the status lines.
- `app/` — the SpacetimeDB module (tables and reducer entry points) and the
  Bevy client, which read and write the database, draw, and keep the
  floating-point clocks and positions.
- `tests/` — the behaviour on concrete values.
