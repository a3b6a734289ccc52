# bluepresence

Discord rich presence for Blue Archive, as a verified library (`src/`) and a
small desktop program around it (`app/`).

- `src/text.rs`: white space and control characters, trimming, the
  normalisation of settings fields, ASCII case-insensitive comparison.
- `src/config.rs`: the settings (`AppConfig`), their normalisation and validation.
- `src/presence.rs`: the presence lines, the Discord activity, recognising the
  game's processes.
- `src/icon.rs`: the application icon decoded to RGBA pixels.
- `src/clock.rs`: the wall-clock timestamp Discord expects.
- `src/monitor.rs`: the monitor as a state machine (event in, action out) and
  the laws it obeys.
- `src/settings.rs`: the settings window's save and skip rules.
- `app/`: the egui window, the tray icon, the settings file and the monitor
  thread that performs the monitor's actions.
