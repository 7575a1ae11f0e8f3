# aerox_5_tray

The logic of a tray application that monitors the battery of a SteelSeries
Aerox 5 Wireless mouse, verified with Verus.

- `src/` — the verified library:
  - `config` — the saved settings and their defaults;
  - `cli` — command-line overrides and the checks on their values;
  - `monitor` — the notification state machine (low battery with
    hysteresis, full charge once per charge) and the notices it asks for;
  - `tray` — the tray's state, tooltip and menu;
  - `fault` — the reaction to device errors;
  - `settings` — the settings window's values and the autostart entry;
  - `text` — decimal rendering of battery levels.
- `app/` — the program around it: command-line parsing (clap), the tray
  service (ksni), desktop notifications (notify-rust), the GTK settings
  window, and the settings files (serde, toml, dirs).
- `tests/` — tests of the library on concrete values.
