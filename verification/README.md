# imgui_app

An application shell for Dear ImGui over SDL3 and wgpu, whose decisions are
verified with Verus.

- `src/` is the verified library:
  - `frame_loop`: how long the idle loop waits for events, what each window
    event does to the loop state, whether a frame is built, and what to do with
    the surface texture;
  - `png_decoder` (with its calls into `png` and `byteorder_lite` in
    `png_backend`): PNG decoding with limits, supported colour types, error
    categories, 16-bit samples rewritten from big-endian into the machine's byte
    order (what is proved: every sample in one and the same of the two byte
    orders, as which one is the machine's cannot be stated);
  - `image_fit`: scaling images down to the texture size limit, with the
    size rounded as `f64` arithmetic rounds it;
  - `image_load`: decoding a PNG file to RGBA pixels and fitting it;
  - `textures`: the registry of GPU textures by id;
  - `surface`: the choice of surface format;
  - `demo_image`: the demo gradient.
- `app/` runs the window, the GPU and the files, and carries out what the
  library decides.
- `tests/` exercises the library on concrete values.

The application compiles in the fonts of the UI from `resources/`
(`FiraSans-Regular.ttf`, `FiraCode-Regular.ttf`), which must be present to
build it.
