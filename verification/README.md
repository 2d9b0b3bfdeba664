# leptos_typeahead

A themeable, accessible typeahead/autocomplete component for Leptos.

- `src/` is the verified library: the option model (`option`), text
  matching and normalization (`text`), the default filter and label
  highlighting (`utils`), the theme and its inline style (`theme`), the
  state machine of the control (`controller`), and the decisions of its
  markup: ids, key handling, what the menu and the control show
  (`component`).
- `app/` binds the library to Leptos signals and renders the markup.
- `tests/` runs the library on concrete values.
