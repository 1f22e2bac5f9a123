# txv_widgets

State logic for a set of terminal UI widgets, verified with Verus: tab
bars (Single, Static and most-recently-used modes), tabbed panels and
groups with searchable dropdowns, a tools panel that splits on demand, a
tiled IDE-style workspace driven by commands and a keymap, tables, a text
viewer with search, and tree and tree-table navigation.

## Layout

- `src/` — the verified library. Each widget keeps its state as plain
  values with a mathematical view; every public function states in its
  contract what it does to that view. Drawing is laid out here too: the
  functions that draw return the strings, columns and styles to print.
  `src/tiled_workspace/laws.rs` and the `law_*` proof functions elsewhere
  state properties that hold across calls.
- `tests/` — tests on concrete values.
- `app/` — views for the `txv_core` terminal toolkit around the library:
  event conversion, child views, painting, the layout trees with
  floating-point proportions, the global palette and glyphs, and reading
  the repository's HEAD file.
