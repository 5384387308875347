# surface_registry

A registry of triple-buffered GPU surfaces, verified with Verus.

An external renderer draws frames into a surface and a compositor shows them, each at its own pace.
Three buffers pass between them: one is rendered into, one holds the latest complete frame, one is
on display. The compositor's gated swap shows a frame only if it is new, and a resize leaves the
displayed frame alone until the replacement buffers have one of their own.

- `src/registry.rs`: `SurfaceRegistry`, the operations by surface id.
- `src/surface_buffers.rs`, `src/triple_buffer.rs`: the buffers of one surface.
- `src/support.rs`: whether a device takes a surface's textures.
- `src/texture.rs`: the textures, and everything that is taken on trust from `wgpu`.
- `src/model.rs`: the models that the contracts are stated over.
- `src/laws.rs`, `src/history.rs`, `src/ids.rs`: laws across operations, and over every sequence of
  events.
- `app/`: the registry behind a lock, for threads to share.
- `tests/`: runs on the `noop` backend of `wgpu`, which needs no GPU.
