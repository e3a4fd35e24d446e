# kadent

The editing logic of the Kadent DAW editor, with its contracts and proofs.

- `src/` — the library. `panel` (layout tree, edge splits and collapses),
  `grid` (beat ruler and piano-roll grid layout), `piano` (note-region extent,
  note resizing, feedback notes), `automation` (integer value ranges),
  `editor` (action queue, edit settling, export, transport), `keyboard`
  (shortcuts), `dialog` (modal dialogs), `tracks` (import target, region
  moves), `edge_drag` (re-wiring node-graph edges), `background` (status
  messages), `file_name` (name checks), `nodes`, `clock` (system clock).
- `app/` — the egui side: drawing, pointer and keyboard input, floating-point
  geometry and file-system work.
- `tests/` — tests of the library.
