# vello_capture

Records the GPU work of one sparse-strip scene render instead of drawing it, for renderers that
bring their own graphics backend.

- `src/` is the library, verified with Verus: the GPU layout of gradients, external textures and
  blurred rounded rectangles, the offsets of the paints of a scene, the recording of scheduler
  calls, and the captured frame.
- `app/` connects it to the paint types of `vello_common`, which hold floating-point values. The
  gradient ramp cache, the tint packing and the strip scheduler come from the renderer.
- `tests/` runs the library on concrete values.

`src/outside.rs` holds the calls into `vello_common` whose contracts are taken on trust.
