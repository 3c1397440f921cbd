# desk_switch

A two-machine KVM switch: one machine (the primary) streams its screen to the
other (the display), which sends its keyboard and mouse input back. The two
find each other by UDP broadcast and authenticate with a shared key.

## Layout

- `src/` is the library, verified with Verus: message framing, the
  configuration and its editing, discovery's peer table, the handshake and
  the role decisions, key and button tables, pixel conversions around the
  JPEG codec, number and address parsing, the log buffer, frame pacing,
  platform setup steps and the virtual-display helper's protocol. Each public
  function carries a contract; the `law_*` proof functions state properties
  that span several functions.
- `tests/` runs the library on concrete values.
- `app/` is the program around it: the command line, sockets, threads,
  screen capture, the viewer window, the desktop window, input capture and
  replay, files and processes.
