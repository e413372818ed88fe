# void_pointer_core

The core of the VoidPointer air mouse: input debouncing and button mapping,
HID routing, power management, the LED sequencer, double-buffered
configuration storage in flash, the event queue and the main loop's
decisions, and the build-time generation of the board's pin map. The
library in `src/` is verified with Verus; `app/` holds what runs around it.

## Layout

- `src/board`: the board's signals, the CH585 pin-function table and the
  generated C header, C source and Rust bindings of the pin map.
- `src/stubs.rs`, `src/text.rs`: test stubs for the C API, and the string
  helpers they use.
- `src/config`: slot header encoding, CRC-32, slot checks and selection, the
  save plan and slot image, upload sessions and what the store remembers
  between saves.
- `src/input`, `src/route`, `src/power`, `src/led`, `src/hid`: buttons and
  encoder, report routing, idle timeouts, LED patterns and their arbitration,
  report formats.
- `src/runtime`: events, the bounded queue (over `src/sync`), deadlines on the
  wrapping millisecond clock, and `RuntimeCore`, the state the main loop keeps
  and what each event, command result and poll step does to it.
- `src/motion`, `src/report`: when motion is on, and the whole counts of
  pointer movement waiting for a report.
- `app/`: the C platform calls, the floating-point attitude, motion and
  report stages, configuration encoding with serde and postcard, the logger,
  file generation at build time, and the main loop that carries out what the
  library decides.
