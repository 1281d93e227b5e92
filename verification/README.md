# pbr_demo

The logic of a demo that renders objects with physically based shading, lit by
point lights that circle them. It is written in Rust and verified with Verus.

- `src/` is the verified library.
  - `args`: what the command line's values mean.
  - `texture`: the textures that are read from PNG files.
  - `lights`: the point lights, their places and their colours.
  - `pipeline`: the resources that the render passes are bound to.
  - `event`: the window's events and what each asks for.
  - `frame`: the commands that draw a frame, in their order.
  - `settings`: the constants that a scene starts with.
  - `app`: the scene, which the events and the frames work on.
  - `number`: how the numbers of the scene are written down.
- `tests/` runs the library.
- `app/` puts it on a graphics device and evaluates its numbers in floating point.
  The shaders and the reader of meshes come in through the trait `Assets`.

The library computes with no floating-point number: it carries them as bit
patterns, and gives the constants of the scene as exact fractions.
