# vimit

A VibeMode quota monitor. The library under `src/` holds the decisions of the
tool, each with a contract checked by Verus:

- `dotenv`, `strmap`, `config`, `accounts`, `paths`: `.env` parsing, key
  lookup with deprecated aliases, per-account configuration, file locations.
- `router`, `api`, `offline`: endpoint failover with failure counting and
  cooldown, retry and back-off decisions for `/v1/me`, offline tracking.
- `notify`, `output`, `monitor`, `theme`, `format`, `agents`, `update`: alert
  escalation, exit codes, the interactive monitor's state and panel text,
  colour palettes, duration text, agent status, update-check scheduling,
  and (`trends`) the grouping of stored snapshots by day and window key.
- `laws`: properties that span several functions, stated and proved.
- `text`, `order`: character-sequence helpers and the string order.

`app/` is the command-line program around the library: argument handling,
HTTP, files, the terminal UI, desktop notifications, the trend database's
storage and averages, and the number formatting that works on floating-point values.

`tests/` runs the library on concrete values.
