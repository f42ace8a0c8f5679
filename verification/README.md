# iomha

A small layered drawing editor. The library (`src/`) holds the editor's
state and every rule of it, verified with Verus:

- `geometry`: fixed-point canvas coordinates (hundredths of a pixel),
  rectangles from two corners, containment, the artboard inside the canvas,
  the guide grid, and the 1.5 px brush sampling threshold.
- `paint`: the palette and opacity.
- `text`: decimal numbers, file names and fallbacks for the status line.
- `editor`: tools, drafts, shapes, messages, and the transition function
  `next_state` that `Editor::update` implements.
- `canvas`: which pointer activity over the canvas becomes a message.
- `scene`: which shapes are drawn, in which order, and the draft preview.
- `laws`: properties that span messages (the invariant every message keeps,
  shapes only growing, what a press-drag-release gesture commits, ...).

`app/` is the iced window: widgets, the file dialog, and drawing, converting
between iced's floating-point pixels and the library's units.
