# gosub_vello

The Vello/wgpu rendering backend of the Gosub engine, split in two:

- `src/` is the verified library: choosing the graphics adapter (by name,
  compared in lower case, then by request, then a fallback adapter), turning
  renderer options into a configuration, choosing and configuring the
  presentation surface, keeping the intermediate render target the size of the
  surface across resizes, and planning each frame.
- `app/` performs the GPU work with `vello` and `wgpu`, following the actions
  and plans that the library computes.
