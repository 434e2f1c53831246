# battery_wattage

A system-tray readout of how fast a laptop battery is charging or draining,
in watts. `src/` is the verified library (Verus); `app/` is the Windows
program around it (window, tray icon, GDI drawing, registry and battery
device I/O).

Library modules:

- `battery` – what a reading holds; decoding the driver's status and
  information records (flags, unknown-value sentinels, relative capacities).
- `display` – the label (`T`, whole watts, `N/A`) and the three tooltip lines.
- `monitor` – the per-second decisions: when to reopen the battery, and when
  the last value gives way to the `N/A` placeholder.
- `config` – colour presets, settings, and validation of stored values.
- `registry` – settings as `REG_SZ` / `REG_DWORD` bytes, both ways.
- `menu` – the context menu, its command ids, and what each command does.
- `icon` – font size and background pill geometry, pill filling, the alpha
  pass and the 1-bit mask of the 64 x 64 icon.
- `text` – decimal rendering and UTF-16 encoding/decoding.

The current (A), voltage (V) and charge percentage in the tooltip come from
floating-point arithmetic, which stays in `app/`; the library places the
texts it is given.
