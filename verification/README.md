# atlas

A small gravitational sandbox (a black hole, a water giant and its moons)
drawn with raylib. The verified library in `src/` holds the parts of the
program that are integer or structural logic:

- `trail`: bounded position trails (the most recent 800 points, in order);
- `sim`: the time controls (pause, a time scale between 1/8 and 64 in
  powers of two, substeps per tick) and the recording of trails each tick;
- `stars`: the deterministic linear congruential generator behind the star field;
- `render`: the integer alpha and flare rules of the renderer.

`app/` is the raylib program around it: window and input, floating-point
orbit integration, geometry and shaders.
