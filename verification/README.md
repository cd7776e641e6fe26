# waylandcraft

The verified core of WaylandCraft's nested Wayland session: the input-method
relay between in-game applications and the host's input method, the host
bridges (IBus, Fcitx5 over D-Bus, and a text-input-v3 passthrough), and the
supporting decisions of the native side — status and diagnostic reports,
host window lists, program launching, the Xwayland satellite, audio node
selection and frame preparation for the video encoder.

Every function in `src/` carries a contract proved by Verus; the public
`law_*` proof functions state properties that span several calls.

## Layout

- `src/relay.rs` — the serial-checked, batch-atomic relay state machine.
- `src/ime.rs`, `src/ime_event.rs`, `src/keyboard.rs`, `src/text_input.rs` —
  the compositor-side input-method state, its events, and the bookkeeping of
  text-input-v3 objects (per-object commit serials, enter/leave targets).
- `src/host_bridge/`, `src/host_ime/` — the D-Bus bridges: signal decoding,
  key arbitration and per-frame draining of worker messages.
- `src/system_ime.rs` — host passthrough decisions (enable, state push,
  disable) for the text-input-v3 client.
- `src/status.rs`, `src/diagnostic.rs` — status JSON and the layered
  diagnostic report.
- `src/desktop.rs`, `src/launch.rs`, `src/satellite.rs`, `src/audio.rs`,
  `src/video.rs` — windows, launching, the X11 satellite, audio capture
  targets and encoder frames.
- `src/text.rs`, `src/dbus_value.rs`, `src/channel.rs` — text helpers,
  D-Bus values, worker channels.
- `app/` — the I/O around the library: D-Bus workers, `/proc`, processes,
  sockets and files.
- `src/surface_list.rs` — the handle lists of surfaces kept for the
  embedding application.
- `tests/` — tests of the library on concrete values.

## Not in this crate

The nested compositor itself (its smithay event loop, display, seat and
socket setup), the JNI bridge to the game, EGL, and PipeWire and portal
capture are neither in `src/` nor in `app/`: they are plumbing around
libraries that are not available here. The library holds the decisions they
make (which audio node to capture, which surfaces to list, what the status
and diagnostic reports say) as verified functions that take plain values.
