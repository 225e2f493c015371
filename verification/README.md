# libinput-rs

A daemon that grabs touchpads, trackpoints and mice, turns touchpad
contacts into relative pointer motion, two-finger scrolling and
tap-to-click, pauses the touchpad while the user types, and re-emits the
result through a uinput virtual pointer.

- `src/` is the verified core (Verus): event codes, the per-device gesture
  state machine (`device`), the events written to the virtual pointer
  (`output`), device classification (`identify`), the table of tracked
  devices the event loop dispatches to (`tracker`), and proved properties
  of all of these (`properties`).
- `app/` is the daemon around it: reading `/etc/libinput-rs/config.json`,
  opening and grabbing evdev nodes, the mio/inotify event loop, the
  floating-point motion scaling, and writing to uinput.
- `tests/` exercise the core on concrete event sequences.
