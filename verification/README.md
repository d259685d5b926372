# smac_core

The rules, state and screens of a turn-based planetary strategy game, as a library
verified with Verus.

- `src/` is the verified library. `model` holds the game's data types, `content` the
  rules data (names, costs, unit statistics, the tech tree, faction profiles),
  `presentation` the text and labels the screens show, `ranking` stable sorting of
  named counts, `localization` translated strings, `narrative` the planet's voice,
  `map` terrain glyphs, `save` save-slot types, `seqs` facts about searching
  sequences, and `text` string building. `game_state` and its submodules hold the
  parts of the game's rules and screens that stand here: lookups, unit traits and
  orders, bases and their build queues, production choices, choosing research, base
  governor plans and the focused (defense, recovery, economy, logistics, balanced and
  queue) plans drawn from them, runtime roles, diplomatic status changes and the
  player's sight, the end-of-game check, completing secret projects, the diplomacy panel, AI
  pressure on tiles, convoy repairs, the
  council, probe teams, crises, worked-tile yields, and the sidebar, map, registry,
  top-bar, logistics and social-engineering screens.
  Not here yet: turn processing and the faction economy, movement and combat,
  research progress, convoy creation and interdiction, action dispatch, and the
  base, selection, research, operations-dashboard and faction-overview panels.
  The rules data in `content` covers names, costs, strengths, prerequisites and
  faction profiles, but not the terrain and facility combat bonuses, hit points,
  upkeep, stability and yield bonuses those parts read, and the opponent logic they
  call is not part of this crate. Where such values feed a function that is here,
  the function takes them as arguments: governor plans take `GovernorSignals`,
  operations advice `OperationsSignals`, sight and diplomacy `SightRadii`, and the
  social-engineering screen the choices the technology tree opens.
- Every function there carries a contract that Verus proves; the one trusted item is
  `text::push_char`, which appends a character to a `String`.
- Laws of the library stand in `src/` as public proof functions named `law_...` and
  `lemma_..._round_trip`.
- `app/` holds what is not verified: reading translations from JSON, and sampling a
  height map from Perlin noise, which works in floating point.
- `tests/` exercises the library on concrete games.
