# slintwrapper

The data side of a C interface through which Julia drives the Slint UI
toolkit.

- `src/` is the verified library: the record exchanged with the host
  (`jrvalue`), the error state (`error_state`), the models of array properties
  (`cells`), the cell value and its list-view item (`slint_value`), the
  registries of models, list-view bridges and the current instance
  (`registry`), and properties that relate several operations (`laws`).
- `app/` is the C interface itself: the exported functions, the Slint model
  implementations over the library's cell grid, and the surface-plot
  rendering.
- `tests/` runs the library on concrete values.
