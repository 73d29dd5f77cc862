# aoui

The decision logic of a 2D UI toolkit for Bevy, verified with Verus.

## Layout

- `src/` — the verified library.
  - `events/` — event flags (`flags.rs`); the cursor system that decides, each
    frame, which sprite is hovered, pressed, clicked, dragged or dropped on
    (`systems.rs`, with the cursor state in `cursor.rs`); the laws that hold of
    every frame (`laws.rs`); focus state machines (`focus.rs`); signal ids
    (`signals.rs`).
  - `layout/` — axes, directions and alignments (`util.rs`, `direction.rs`),
    layout controls and trimming (`container.rs`), the order in which a span
    places its items (`order.rs`), and the layout descriptions (`layouts.rs`).
  - `flex/` — the flexbox vocabulary: directions, stacking, span alignment.
  - `units.rs`, `dimension.rs`, `anim.rs`, `dsl/` — sizes with units,
    dimensions, playback modes, and the DSL's named constants.
- `app/` — the Bevy side: components, systems and plugins that measure in
  floating point, read windows, cameras and input, call the library, and
  insert the components it decides on.
- `tests/` — tests of the library on concrete values.

Numbers that are `f32` in Bevy (positions, sizes, times, depths) are held by
the library as their bit patterns; depth order is compared through a key on
the bits that orders them as `f32::total_cmp` does.
