# tas_editor

A verified model of a TAS (tool-assisted speedrun) movie editor: projects
with branches of per-frame controller input and replay events, an editing
session with bounded undo/redo history, autosave and recording drafts, and
the editor state that turns user actions into checked, transactional edits
(timeline selection, clipboard copy/paste/insert/tile, marked ranges,
digital and special-input transforms, autofire, markers, annotations and
FDS drive events).

- `src/` is the library, verified with Verus. Public functions state in
  `ensures` what they return and how they change the editor, including on
  which inputs they succeed; the `law_*` proof functions state properties that span
  several operations (undo/redo round trips, bounded history, pasting a copy
  back in place, deleting inserted frames, recovering an autosave, discarding
  a recording draft, canonical event order, transform involutions).
- `tests/` exercises the library on concrete values.
- `app/` is the egui front end: it draws the state, collects actions for the
  reducer and runs the periodic autosave on the host clock.
