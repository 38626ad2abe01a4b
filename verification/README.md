# volumectl

The verified core of VolumeControl, a desktop volume controller with an
overlay, a mixer, a settings window and a tray icon.

`src/` is the library, every function proved with Verus:

- `config` – the configuration model, its defaults, strict field-by-field
  validation, blacklist normalization and the save preparation.
- `ui::model`, `ui::capabilities`, `ui::surface`, `ui::platform` – the
  shared UI state, the material and motion ladder, window placement and
  the per-platform surface plans.
- `ui::theme`, `ui::signal_rail`, `ui::canvas`, `volume` – colors, the
  volume legend, the Signal Rail and the overlay's value line.
- `ui::draft`, `settings_window`, `settings_state` – the settings edit
  draft and the settings window's decisions.
- `tray`, `wheel`, `webview`, `text` – tray menu ids and icon, the wheel
  gesture, the webview surfaces and their placement, string helpers.

`app/` holds the host glue Verus does not see: the JSON file format,
saving and loading the configuration, process-wide flags, and the
floating-point drawing and design tokens.
