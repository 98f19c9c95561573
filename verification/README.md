# theoshot

A screenshot annotation tool. The library in `src/` is verified with Verus;
`app/` is the desktop program around it (screen capture through the desktop
portal, the egui window, clipboard and file dialogs).

Library modules:

- `capture`: the captured frame, the choice of the monitor under the cursor,
  the crop of a whole-desktop screenshot to that monitor, and the local path
  that the portal's screenshot URI names.
- `editor`, `editor_laws`: the editing state (tools, annotations, undo/redo
  history, the annotation being drawn or typed, step numbering) as a state
  machine over a mathematical model, and the laws it obeys.
- `shape`, `tool`, `color`, `text`: annotations, tools, colours and text editing.
- `render`, `render_laws`, `frame`: how an annotation is planned as drawing
  steps on the frame and painted (outlines, discs, pixelation), the
  pixel-level model of the frame, and the calls into `image` and `imageproc`.
  Segments and text are drawn by `app/`, because `imageproc` takes them in
  floating-point coordinates and font scales.

Notes on `app/`:

- `device_query`, `display-info`, `rfd` and `font-kit` (cursor position,
  monitor list, save dialog, system fonts) are not listed in `Cargo.toml`,
  which keeps the dependency tree under 400 packages; `app/` needs them
  added to build.
- The `screen` command-line mode is parsed and reported but changes nothing:
  the capture always takes the whole desktop without a dialog.
- With the move tool, the annotation under the pointer is the first one in
  drawing order whose body contains it (the bottom-most), as the code always
  chose, although a comment there spoke of the topmost.
