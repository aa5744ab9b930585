# raytracer

A small path tracer (spheres, quads, triangles, instancing, participating
media, textures, Perlin noise, dispersive glass, importance sampling) with a
command-line renderer and a browser front end that renders progressively and
visualises individual light paths.

The crate is split in two:

- `src/` is a Verus-verified library holding the integer-valued logic:
  gamma decoding of colour bytes and plain PPM encoding (`colour`, `camera`),
  decoded-image lookup with edge clamping (`rtw_image`), checker tile parity
  (`texture`), the Perlin lattice hash with its permutation tables (`perlin`),
  camera-builder decisions (`camera`), the progressive-render accumulator and
  front-end mode decoding (`scene`), the bookkeeping of traced light paths and
  their wire formats (`trace`, `bundle`), and validation of custom JSON scenes
  (`scene_json`). Every public function carries a contract; laws relating
  several functions are stated as proof functions next to them.
- `app/` is ordinary Rust: all floating-point geometry, shading and sampling,
  file I/O, JSON parsing, the demo scenes and the front-end scene object. It
  calls the library for every decision listed above.
