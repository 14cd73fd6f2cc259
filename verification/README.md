# framegraph

A render-pass frame graph for Vulkan, with its contracts proved by Verus.

Passes declare the resources they read and write. A frame is compiled into
an execution order (writers before the readers that depend on them, the
root pass last, passes the root does not need dropped) and then linked:
each pass gets the image barriers and layout transitions it needs, given
how every resource was last used.

Layout:

- `src/` — the verified library: the graph and its compilation
  (`compiler`, `graph`), linking (`linker`, `vulkan_frame_graph`), pass
  nodes and their builders, render pass and pipeline planning
  (`renderpass_manager`, `pipeline`, `pipeline_manager`, `shader`),
  descriptor writes and barrier translation, device and swapchain choices
  (`context`), GPU timing bookkeeping (`profiling`) and ready-made passes.
- `tests/` — tests of the library on concrete frames and values.
- `app/` — a windowed renderer that asks the driver, creates what the
  library chose, and records what it decided.
