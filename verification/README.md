# rusty_live2d

Reading and preparing Live2D Cubism models for rendering, with the model
logic verified by Verus.

## Layout

- `src/` — the verified library.
  - `moc3/` — the binary moc3 format: the header (`header`), the section
    offset table and numeric sections (`sections`), the count and canvas
    tables (`counts`, `canvas`), art mesh
    tables and render orders (`art_meshes`), art mesh keyforms (`keyforms`),
    deformer tables, depth and composition order (`deformers`), keyform
    bindings (`bindings`), drawable mesh assembly (`drawable`). Each table
    reader reads a whole file with `parse_file`, or takes an already read
    byte order, offset table and counts with `parse`.
  - `json/` — motion3.json curves and segments (`motion3`), pose3.json parts
    (`pose3`).
  - `runtime/` — warp deformer grid cells.
  - `render/` — vertex and index buffer encoding (`common`), clipping-mask
    planning and mask texture layout (`clipping`), the wgpu renderer's draw
    order, texture selection, buffer update checks and error texts (`wgpu`),
    and the mesh buffers of a model (`renderer`): which vertex bytes to write
    into which buffer when meshes change, and which draw commands to record,
    in which order and with which texture bind group.
  - `text` — decimal text of integers, for error messages.
  - `assets` — texture decoding to RGBA pixels (through the `image` crate), in
    the format that the file extension names.
- `app/` — the host side: serde documents, file loading, floating-point model
  math (motion sampling, physics, deformer transforms, clipping rectangles,
  the integer draw orders used as draw order keys), the creation of the
  renderer's GPU objects, and the GPU work the library plans: buffer writes
  and render-pass commands.
- `tests/` — tests of the library.

`f32` values of a model are carried through the library as their bit
patterns; the floating-point arithmetic on them lives in `app/`.
