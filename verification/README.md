# ralaire

A small retained-mode GUI toolkit. Views describe the interface; they are
built into widgets and, when the application state changes, compared with
the previous views to bring the widgets up to date.

## Layout

- `src/` — the verified library:
  - `view` — the view traits, view sequences (building, rebuilding and tearing
    down the elements of vectors, options, arrays and tuples of views through
    a splice), the flex container, headers, windows, images;
  - `event` — mouse, touch and window events, how they reach widgets, and the
    context that collects messages and the cursor while widgets handle them;
  - `window` — window sizes, which widget is hovered and which has the focus,
    and what closing a window does;
  - `animation` — animations as a shared counter of ticks, and the decisions
    of the task that runs them;
  - `render` — the division of a stack of render commands into lists that are
    each self-contained in their layers;
  - `debug` — ring buffers of stage durations and their averages and maxima;
  - `id` — identifiers issued from counters;
  - `command`, `app`, `alignment`.
- `app/` — what the library leaves out: floating point geometry and easing,
  `winit` conversions and window requests, `peniko`/`parley` drawing data,
  the `tokio` tasks that run animations, logging, and the process-wide
  identifier counters.
- `tests/` — tests of the library.
