# pipewire-capture

The core of a screen capture library for Wayland, written in Rust and verified with Verus.

A window is picked through the ScreenCast interface of xdg-desktop-portal, and its frames come
from a PipeWire stream. Packed BGRA, BGRx, RGBA and RGBx frames in CPU-mapped memory are
normalized to tightly packed BGRA. `src/` decides and computes; the calls to D-Bus, PipeWire, EGL
and Python are made by `app/`, which hands plain values in and acts on what comes back.

## Layout

- `src/frame.rs`: validation of mapped buffers and the copy into BGRA.
- `src/shared.rs`: the state that the capture thread shares with the caller, and its callbacks.
- `src/thread.rs`, `src/negotiation.rs`: the steps of the capture thread, the offered formats.
- `src/stream.rs`: the capture stream as its caller sees it.
- `src/history.rs`: laws over everything that can happen to a capture.
- `src/portal.rs`: portal sessions, the order of the portal calls, and what a failure means.
- `src/gpu.rs`: import of DMA buffers through EGL.
- `src/probe.rs`: the frame counter for a quick test of a desktop.
- `src/error.rs`, `src/seconds.rs`, `src/spa.rs`, `src/text.rs`: errors, lengths of time as
  IEEE 754 bit patterns, SPA identifiers, and text.
- `tests/`: tests of the library.
- `app/`: the Python module around it, and in `app/bin/` the probe as a program.

## What is proved

The public functions of `src/` state exactly what they return and change. Three ask something of
their caller: that the bytes of an imported image and the count of probed frames fit in 32 bits,
and that a frame is copied by a layout that fits its memory. Whether there is memory for a copy is
left open.

Functions named `law_...` state what holds across functions, for instance that no read leaves the
mapped memory, that a caller never sees a frame of another format than the negotiated one, that
capture which has ended stays ended, and that no failure of the portal leaks a session.

Two things are taken on trust from the standard library: that `Vec::try_reserve_exact` keeps the
bytes that a vector holds, and `std::time::Instant` as an opaque point in time.
