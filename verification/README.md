# xgamengine

A text game engine for xianxia (cultivation) stories told by a language
model, with its rules verified by Verus.

`src/` is the verified library:

- `state`, `game_state`, `snapshot` — the character-creation answers and
  what they give, the world, the game state, how one turn's extracted
  change updates it (and the invariant every update keeps), the starting
  state, and the state snapshot given to the model.
- `memory` — the conversation window and its compaction.
- `chronicle` — the chronicle of the journey, split into volumes.
- `prompt` — prompt assembly, template rendering (through `regex`), the
  parsing of model replies (JSON or the older text format), and the vetting
  of extracted changes and generated worlds.
- `engine`, `journal` — a session: its start, the decisions of each turn,
  the fallback options, the turn log and the exported document.
- `llm`, `tui`, `scenes` — token accounting and the decoding of the event
  stream, the interface state, and the scene types.
- `text` — string operations with their specifications.

`app/` is the terminal program around it: key handling and drawing
(ratatui, crossterm, tui-textarea), HTTP calls to the model (reqwest,
tokio), JSON decoding and save files (serde), and the clock.

Run it with `DEEPSEEK_API_KEY` set and `XGAMENGINE_TEMPLATE_DIR` pointing
at the prompt templates.
