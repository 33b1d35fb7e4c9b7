# ps4_midi_mapper

Turns a game controller into a MIDI controller (buttons become notes, sticks,
triggers and the touchpad become control changes), together with the plain-data
core of a small bug bounty automation tool. The library's behaviour is stated
in contracts and proved with Verus.

- `src/` — the verified library: report decoding for DualShock 4, XInput,
  DirectInput and generic HID gamepads, controller profiles, touchpad tracking,
  device selection, MIDI message construction, the mapping state (debounce and
  control-change filtering), and the bug bounty tool's configuration, plugins
  and command-line decisions.
- `tests/` — tests of the library on concrete values.
- `app/` — the program around it: device and MIDI I/O, threads, floating-point
  normalization of positions, and the command-line front ends.
