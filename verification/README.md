# vulkan_render

The decisions of a small Vulkan renderer, written in Verus and proved against
their contracts, with the driver calls kept apart.

- `src/` is the verified library: swapchain choices (format, present mode,
  extent, image count), device selection during context setup, descriptor
  pool sizing, the registry of descriptor set layouts and the builders of
  layouts and descriptor writes, the graphics pipeline description, render
  targets of a render pass, synchronization objects, and the render loop's
  reaction to acquire and present outcomes.
- `app/` makes the Vulkan and allocator calls (all `unsafe` in vulkanalia)
  and hands their results to the library. Work that the library needs done
  in the middle of its logic, such as creating a render target for each
  swapchain image, is passed to it as a closure.
- `tests/` exercises the library on concrete values.

Vulkan enumerations and flags are held in the library by their raw codes;
handles travel through it unopened.
