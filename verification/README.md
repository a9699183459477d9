# thumbnail_generator

A Windows shell thumbnail provider that renders thumbnails with libvips.

- `src/` is the verified library (Verus): UTF-16 handling of shell paths
  (`wide`), the libvips source name with load options (`source_path`), the
  provider's state (`provider`), the thumbnail pipeline as a state machine that
  the DLL drives one command at a time (`pipeline`) and the laws that hold of
  all its runs (`pipeline_laws`), the R,G,B,A to B,G,R,A reordering of the bitmap's pixels (`pixels`),
  the class-object decision (`class_object`),
  debug messages (`debug_log`), the sample choice of the folder benchmark
  (`samples`), `HRESULT` values (`hresult`) and where libvips is loaded from
  (`loader`).
- `app/` is the DLL itself: COM objects, libvips calls through `libloading`,
  GDI, and the DLL exports, plus the developer tools under `app/tools/`. It
  builds only for Windows targets.
- `tests/` runs the library on concrete inputs.
