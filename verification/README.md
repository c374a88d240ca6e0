# cube_scene

A textured, rotating field of cubes with a free-look camera (OpenGL, GLFW).

- `src/` is the verified library: which command each window event asks for
  (`input`), the wireframe state across a frame of events and the plan a frame
  hands back (`frame`), the camera moves asked for by held keys (`movement`),
  the interleaved vertex layout and buffer size (`layout`), and the laws that
  hold of them (`laws`).
- `app/` is the program: window, GL and image I/O, and the floating-point
  camera and texture-mix updates, driven by the library's decisions.
- `tests/` runs the library on concrete inputs.
