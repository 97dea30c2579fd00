# game

A small first-person game on wgpu and winit, split in two:

- `src/` is the verified library (Verus): the held movement keys
  (`input`), the window state machine of fullscreen and cursor capture
  (`state`, `event`), the choice of the fullscreen video mode (`video`),
  image decoding for textures (`decode`) and the integer layouts handed to
  the GPU (`layout`).
- `app/` is the program: the window, the GPU resources, the camera and
  player (all floating point) and the event loop, which turns winit events
  into the library's events and carries out the commands it returns.
