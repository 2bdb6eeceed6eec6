# libmks_rs

A client library for QEMU's D-Bus display protocol (`org.qemu.Display1`), written in
Verus: the logic carries `requires`/`ensures` contracts and is proved.

## Layout

- `src/` — the verified library.
  - `dbus/` — the protocol's value types: console type, keyboard edges and lock
    LEDs, mouse buttons and their X11 mapping, touch kinds, and the listener's event
    model with the interface list derived from the listener options.
  - `display/pixman_4cc` — pixman and DRM FourCC codes, the pixman → FourCC mapping and
    the opaque sanitisation of alpha formats.
  - `display/display_state` — the screen state machine: which backend presents the
    frame, the cursor model, and the work each display event leaves for the backend.
  - `display/software_rasterizer` — the CPU frame with clipped rectangle patches,
    specified byte by byte.
  - `display/gpu_passthrough` — DMA-BUF staging and page flips with damage mapping.
  - `display/framebuffer` — the double-buffered shared-memory swapchain: the back buffer
    is synchronised over the last damage, so a partial update presents exactly the
    previous frame with the rectangle replaced.
  - `display/capture_state`, `display/vm_display` — pointer capture: the state machine
    and the controller whose invariant is that nothing is captured outside confined mode,
    and which forwards input events to the guest only while input is forwarded.
  - `display/input_handler`, `display/input_daemon`, `display/send_log` — the input
    pipeline: capability gating, held-key tracking, a ghost log of every command handed
    to a channel (so each sender states exactly what it sends), coalescing of pointer motion (absolute moves are
    last-write-wins, relative moves add up, other events keep their order) and the
    reconciliation of property watchers.
  - `display/udma` — the `UDMABUF_CREATE` request and its page-alignment check.
- `tests/` — tests on concrete values, run against the compiled library.
- `app/` — the unverified layer: D-Bus proxies and interfaces (zbus), the input threads,
  GTK/Wayland presentation, and the floating-point viewport geometry.
