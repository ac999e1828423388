# renderd

The core of the Renderd display-streaming viewer, written in Verus: every function
under `src/` is verified by Verus, and nearly all carry a contract that says what they
return or change. A few have no `ensures` at all: the clock readings
(`clock::elapsed_ns`, `clock::unix_time_ns`, `AppState::uptime`), the path measurements
of a QUIC connection (`FragmentBurst::max_datagram_size`, `QuicConnectionExt::rtt`), and
the constructors of the two platform keychain handles, which hold no data.

## Layout

- `src/` — the verified library.
  - `proto/` — session messages, their validation rules and error texts, UUID text.
  - `net.rs` — control-stream framing, certificate pinning, datagram bursts over quinn.
  - `network.rs` — the datagram receive loop as a state machine, and its counters.
  - `control.rs` — the viewer's half of the session handshake.
  - `frame_queue.rs` — the bounded decoded-frame queue and its conservation law.
  - `decoder.rs`, `decode/` — the decoder trait and the per-platform decoders.
  - `renderer.rs`, `render_backends.rs` — NV12 to BGRA conversion, aspect-fit layout,
    blitting, and the renderer back ends.
  - `keychain.rs`, `pairing.rs` — paired-host credentials and the PIN pairing flow.
  - `reconnect.rs`, `session.rs`, `state.rs` — reconnection back-off, the watchdog,
    the presentation step and the application state.
  - `feedback.rs`, `clock_sync.rs`, `capture.rs`, `cli.rs` — receive telemetry, vsync
    reports, capture geometry, command-line choices.
  - `text.rs`, `clock.rs`, `error.rs` — decimal text, time sources, error texts.
- `tests/` — tests of the library, run against the real outside crates.
- `app/` — the viewer program: windowing (winit, softbuffer), QUIC and TLS set-up
  (quinn, rustls, socket2), async plumbing (tokio) and argument parsing (clap).

Calls into outside crates that the library makes go through small trusted wrappers,
each documented with what its contract claims of the outside function.
