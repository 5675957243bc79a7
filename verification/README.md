# monsim

A monster battle simulator engine, verified with Verus.

- `src/` is the library. A battle (`battle.rs`) holds two teams of monsters (`team.rs`,
  `monster.rs`), the environment, a linear congruential generator (`prng.rs`) and a message log.
  Battles are put together with the builders of `builder.rs`.
- The mechanics of a battle (species, abilities, items, statuses, weather, terrain, traps) react
  to events through event handlers. `event_dispatcher.rs` collects the handlers for an event,
  orders them (`ordering.rs`), filters them by the positions of the monsters involved
  (`targetting.rs`) and hands each one to an `EventResponder`, which the game's mechanics
  implement.
- `effects.rs` holds what happens in a battle: moves, damage, stat changes, statuses, abilities,
  items and switches.
- `app/` is a small terminal program that plays a battle against the first choice of the
  opponent.
