# nnk

The rules and services of NNK Stalker, a multiplayer web version of a "Stalker"
tabletop campaign (a GM and four or five players), written in Verus.

`src/` is the verified library:

- `engine` — the turn engine: `init`, `try_add_player`, `step`, `legal_actions`, with
  the mission-targeting turn (D20 location, CCC draw, D20 hex, D6, moves on the
  19-hex sector). `laws` states and proves what holds across operations: offered
  actions are accepted, the lobby refuses gameplay, joins respect capacity and are
  idempotent, steps keep rooms well-formed, and a step is determined by the room and
  the action (dice and NPC ids come from the room's seed).
- `room`, `token`, `hex`, `sector`, `location`, `ccc`, `events`, `clock`, `npc`,
  `mission`, `round`, `pilgrim`, `tablet` — the game's values and their rules.
- `rng`, `shuffle` — seeded dice and deterministic shuffles.
- `auth`, `app`, `server` — usernames and passwords, bearer tokens, room services,
  and how the HTTP and socket routes answer; a token issued for a user reads back as
  that user, and a protected route admits a caller only as the user its token names.
- `protocol`, `client`, `client_flow`, `client_text` — wire messages, and the client's
  session, what it does with input and network reports, and how it words them.

`app/` is the Axum server around the library: routes, the socket loop, SQLite
storage, and the JSON shapes of the library's types.
