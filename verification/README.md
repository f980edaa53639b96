# render_vulkan

The bookkeeping of a small Vulkan renderer, verified with Verus, and the
renderer, scene viewer and shader build tool around it.

`src/` (verified):

- `staging` — the staging belt: per frame in flight, uploads are packed back
  to back into an 8 MiB staging buffer, and the copies to flush are recorded.
- `suballocated_buffer` — a GPU buffer whose space is handed out in 32 byte
  units; uploads are staged through the belt; the leak check on release.
- `suballocator` — the trusted layer over `offset_allocator`.
- `swapchain` — the swapchain's images and the image in use.
- `setup` — choice of physical device and graphics queue family, and which
  buffers get a device address.
- `shaders` — the shader list, the `slangc` command lines, and when a compiled
  shader is out of date.
- `vk_handles` — the Vulkan handle types the library carries.

`app/` (ordinary Rust): everything that calls Vulkan, the window system, the
file system or child processes, driven by the library's decisions.
