# phyzzy

The interaction logic of the Phyzzy soft-body viewer, verified with Verus.

- `src/` — the library: which mass the pointer is over (`pointer`), the
  requests the viewer makes of the physics model (`command`), the viewport's
  hover/select/drag state (`phyzzy_viewport`), the app window's pointer state
  (`phyzzy_runner`), the single-selection layer (`phyzzy_interact`), and the
  plain parts of model loading (`phyzzy_io`).
- `app/` — the eframe program around it: drawing, floating-point geometry,
  file reading and the physics model (the `phyzzy_rs` crate), which carries
  out the library's requests.
- `tests/` — tests of the library.
