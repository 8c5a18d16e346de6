# gb_mahjong_server

A server for Guobiao mahjong, written in Verus: the rules of the rooms, the lobby, the sessions,
the gateways, the replays and the load test are executable Rust whose behaviour is stated in
contracts and proved.

- `src/` is the library.
  - `room/` is the state machine of a room. `commands` takes a command, `handlers`, `actions`,
    `plays`, `windows`, `outcomes`, `rounds`, `settlement` and `match_flow` say what it does,
    `frames`, `broadcast` and `payloads` what is told and stored, `engine_view` and `steps` what is
    asked of the rule engine, and `driver` plays a room together with an engine.
  - `room/soundness`, `room/numbering`, `room/conservation`, `room/table`, `room/offers` and
    `room/tidy` hold what every room keeps: that it is ready for the next step, that its event
    numbers only grow, and that no tile is lost or doubled. The one exception to the last: a claim
    that names a win on a kong instead of declaring it is laid down as a meld like any other claim
    that was offered and judged legal, and the laws on tiles leave it out. `room/simulation` holds
    the matches that a room plays by itself, and `room/stock` and `room/success` why these always
    come to their end.
  - `lobby`, `auth`, `gateway`, `http`, `db` and `load_test` are what stands around the rooms.
  - `rng` and `tokens` hold the few calls into other crates whose contracts are trusted: random
    numbers, random ids and hashes.
- `app/` is the program: sockets, HTTP, PostgreSQL, gRPC and the command line.
- `tests/` runs the library.
