# herdr_core

The decision logic of the herdr terminal workspace manager, verified with
Verus: every public function states in `ensures` what it returns or changes,
and the laws that span several calls stand as public proof functions named
`law_*`.

`src/` is the verified library, one module per subject:

- `closed_agents`, `api_schema`: the newest-first ledger of closed agents,
  revival claims and refusals, and the protocol's rows and replies.
- `bar_config`, `bar_config_panel`, `bar_apps`, `bar_edit`, `bar_labels`,
  `bar_keys`, `bar_geometry`: the bar configuration panel (its draft, the
  override diff it persists, its Apps inventory and editor, keys and hit
  areas).
- `rail`, `locations_model`, `sidebar`, `locations_host`, `locations`,
  `paths`: the Files location rail and sidebar, and the cursor and origin
  state that browse them.
- `fm_io`, `watcher`, `miller`: the file manager's bounded I/O lane, its
  watcher schedule, and Trail column resizing.
- `colleagues`, `handoff`: the colleague picker and handing files to agents.
- `dormancy`, `creation`, `config_edits`, `pane_audio`, `popup_size`: pane
  dormancy, where new terminals start, saved settings, the audio stream
  protocol and its serving steps, and popup sizes.
- `text`, `geometry`: string and rectangle helpers with their contracts.

`app/` holds what Verus does not see: serde wire types, filesystem and
environment probes, the I/O lane's worker thread, terminal event conversion,
the kernel's memory-pressure reading, the process-wide audio stream
registry and the loop that serves one stream step by step. `tests/` exercises the library from outside.
