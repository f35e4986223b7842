# raytracercube

A ray tracer that renders a textured cube over a bounded floor, with an
orbital camera and a point light. The library under `src/` holds the parts
that Verus proves:

- `color`: 24-bit colours and their packed `0xRRGGBB` form.
- `texture`: textures, image decoding (PNG, JPEG) into texels, the procedural grid, and
  texel sampling with edge clamping.
- `material`: flat or textured materials.
- `cube_face`: which material and which UV layout each face of the cube uses.
- `texture_search`: the choice of the cube's textures among the asset files
  (both composite images, else one single image, else the procedural grid),
  as a state machine that the program drives with file-system answers.
- `framebuffer`: the pixel buffer the renderer draws into.

`app/` is the program: the window, the file reads, and the floating-point
geometry and shading (ray/box and ray/plane intersection, Lambert shading,
shadows, the camera), which Verus does not reason about.
