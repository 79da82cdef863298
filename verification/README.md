# vmnl

The decision logic of the VMNL multimedia library, verified with Verus.

- `src/` is the verified library: colors, shape counts and index patterns,
  triangle-geometry, mesh and raw-pipeline validation, descriptor resource
  tables, device and queue selection, joystick event fan-out and gamepad
  mapping updates, and the audio engine's buses (each with its own state,
  and handles on the runtime's), command queue, voice limit, voice and stream
  control, sample ring, decoder checks and resampling.
- `tests/` runs the library on concrete values.
- `app/` is the runtime around it: file decoding, the audio device and
  realtime mix, floating-point stroke tessellation and shape geometry, and
  the GLFW and Vulkan glue.
