# CheSSH

A multiplayer chess game played over SSH, with a pixel-art board in the
terminal. Players are matched online, practise on a board where they move
both sides, or play the Zander engine at a chosen level.

## Layout

- `src/` is the library, verified with Verus:
  - `chess/`: squares and pieces, the rules (through `shakmaty`), and games
    with their move lists and results.
  - `server/`: matchmaking, one online game, and the session manager that
    pairs players, relays moves and archives finished games.
  - `storage/`: the archive of finished games and how an archive file is
    taken over when the server starts.
  - `ssh/`: session identifiers, authentication answers, the decision on
    the host key found on disk, and what a player's session does with
    actions and server messages.
  - `ui/`: the screen state machine (`app`), terminal input decoding, the
    layout of the lobby, board and game screens, what each screen shows
    (as a list of widgets), the piece pictures and the terminal output.
    The rectangles that ratatui's layout solver divides a screen into are
    taken as they come (`layout`): what is drawn and what a click hits are
    stated over those rectangles, and of the rectangles only what every
    answer of the solver satisfies (`split_facts`).
  - `engine.rs`: the UCI dialogue with the engine, as a step function from
    stage and event to next stage and action.
- `app/` is the server program: SSH connections (`russh`), the per-session
  loop, drawing the widgets with `ratatui`, the archive and host key files,
  and the engine process.
- `tests/` exercises the library.

## Running

The server reads `assets/pieces.png` (a sprite sheet of at least 60×40 pixels:
six 10×10 pieces by four colour schemes)
at start. It listens on `0.0.0.0:2222` unless `CHESSH_BIND_ADDR` says
otherwise, keeps its identity in `host_key` (`CHESSH_HOST_KEY`) and its
archive in `game_history.jsonl` (`CHESSH_HISTORY_PATH`). The engine is
`zander` on the `PATH` unless `CHESSH_ENGINE_PATH` names it;
`CHESSH_ENGINE_EVAL_FILE` names its network.
