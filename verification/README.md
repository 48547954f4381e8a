# OpenLogi desktop

The logic of a settings app for mice, keyboards, cameras and lights, written in
Verus. Rules, state changes and what the panels show stand in `src/` with
contracts that are proved. What is painted, sent, read from files or computed in
floating point is left to the program around them.

- `src/text.rs`, `src/table.rs`, `src/order.rs`, `src/rank.rs` hold texts, tables
  and orders.
- `src/device.rs`, `src/hid.rs`, `src/record.rs`, `src/binding.rs` hold what the
  app knows of devices and of what their controls do.
- `src/state/` is the window's state: the device list and how it follows
  snapshots, settings, reads and writes.
- `src/services/` are the rules of background work: device reads, art lookup and
  download, and the connection to the background service.
- `src/features/` are the panels: mouse, keyboard, pointer, lighting, camera,
  profiles and the Actions Ring.
- `src/window/` are the gallery, its cards and the frames around it.
- `src/platform/` tells keypad digits from main-row ones.
- `app/` is a terminal program around the library: files, threads and input.
- `tests/` runs the library on given values.

Time is in nanoseconds, lengths are in thousandths of a pixel, and fractions in
parts per million.
