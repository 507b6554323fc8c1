# strahl asset library

Verified logic of the `strahl` renderer's asset import, written in Verus.

`src/` is the library:

- `per_texture`, `material_textures`, `slot`: the six-component material
  containers and what their slot-wise operations return.
- `texture`: layout of material archives (entry names, metadata of each kind
  of component, default and fallback colors, PNG detection).
- `material_read`: what each component of a material archive loads as
  (decoded image, color, or the fallback color).
- `reader`, `extract`: validation of glTF geometry and decoding of its
  little-endian index and attribute data.
- `material`: bind-group layout of a material for the rasterizer.
- `cubemap`: validation of the six face images of a cubemap and how they are
  uploaded into the skybox texture.
- `gpu_alloc`: choice of a Vulkan memory type.
- `bloom`, `rasterizer`: the order of the bloom post-process's render passes,
  which presenter a GPU setup gets, what presenting a frame results in, and
  the clamping of the viewport.
- `camera`: position of each pixel's ray in a camera's ray buffer.
- `registry`, `scene_desc`: named definitions and plain parts of the scene
  description.
- `raytracer`, `interfaces`, `js_api`, `node_api`: plain types of the ray
  tracer and of the host bindings.

`app/` is the `strahl-import` command-line tool: it reads and writes files
(zip archives, TOML, images, glTF) and hands plain values to the library.
