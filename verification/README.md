# startup_game

The rules of a Solana management game, with their contracts proved. Players build
rooms, collect dirty cash from illegal businesses, launder it through legal
ones, recruit units and team members, and claim silver for completed quests.

- `src/room.rs`: kinds of room and their tables; pending rewards.
- `src/quest.rs`: quest bit masks and their laws.
- `src/player.rs`, `src/inventory.rs`: the accounts and their models.
- `src/instructions.rs`: every instruction, with a model of what it does; a
  refused instruction leaves the accounts unchanged.
- `src/laws.rs`: properties across instructions (well-formed accounts are
  kept, quests are never lost, one-time actions happen once).
- `src/clock.rs`: the runtime's clock, read through `anchor_lang`.
- `app/`: the Anchor program: accounts, serialization, error codes, and the
  floating-point reward and laundering rates.
