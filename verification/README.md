# gpui_div

The decision logic of a `div` element, verified with Verus.

- `src/style.rs` — overflow and stacking order, style refinements and their
  cascade.
- `src/group.rs` — the registry of bounds that named groups publish while
  they paint (a stack per group name).
- `src/bounds_stack.rs` — the per-group stack, kept in a `smallvec::SmallVec`.
- `src/interaction.rs` — the press, hover and click listeners as data, and
  what each does with a mouse event.
- `src/div.rs` — the element: builders, `compute_style`, and the decisions
  of painting (publishing group bounds, choosing listeners).
- `src/geometry.rs` — bounds as the bit patterns of their coordinates.

`app/` holds what the library cannot: pixel geometry in `f32`, hit tests,
and the element state shared through `parking_lot` locks.
