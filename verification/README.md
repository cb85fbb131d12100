# chart_input

The input-handling logic of a charting application, written in Verus and
proved against its specifications.

The application's event handlers read UI state, ask the UI toolkit which
widget is under the pointer, and change chart state. This crate holds the
part of that work that decides: which text field a key or a typed character
goes to, how a text field is edited, what a widget id means, what a click on
a modal or context-menu item asks for, which text a terminal or chat
selection copies, which modal Escape or an outside click dismisses, which
undo history a command goes to and where an undone command is applied,
which drag a press starts, which drag a move updates and what releasing
it ends, what a click or a
right click on the chart does, which hover highlights a pointer move sets,
how indicator sub-panes are reordered, and which cursor the UI layer shows.

## Layout

- `src/` — the verified library, one module per concern:
  `keys`, `chars`, `text_edit` (editing and search boxes), `routing` (key
  and character routing), `copy` (what the copy shortcut copies), `drag`
  (drag start, move and end), `clicks` and `canvas` (left and right
  clicks, the chart canvas), `hover` (hover highlights and the crosshair
  gate), `preset` (saving a preset and autosave), `indicator_sets`
  (deploying an indicator set), `widget_id` and `number` (the widget-id
  grammar and decimal parsing), `actions` and `names` (modal,
  inline-toolbar and context-menu actions, composite symbol keys, default
  names), `modal` (Escape and outside clicks), `selection` (terminal and
  chat selections), `chart_app` (the state the handlers share), `undo`,
  `indicator_ids`, `panes`, `watchlist`, `profile`, `hex_color`, `cursor`
  and `strings`.
  Laws that relate several operations are public proof functions named
  `law_*`.
- `tests/` — tests on concrete values, one file per area.
- `app/` — unverified glue: conversion to the toolkit's key type and
  separator orientation, the agent runtime's instance modes, and the
  floating-point pixel geometry.

The only trusted item is the wrapper around `String::push` in
`src/strings.rs`.
