# tiny4linux

Control library for the OBSBOT Tiny 2 webcam, verified with Verus.

- `src/presets.rs`: the custom preset store (save replaces by name or appends,
  delete removes the first preset of a name) with its laws.
- `src/camera.rs`: the camera's command rules: which unit and selector each
  vendor command goes to, the exchanges each operation makes and how their failures end it, the fallback pan
  and tilt ranges, and recalling a stored preset.
- `src/panel.rs`: the control panel as a state machine from panel state and
  event to next state and effects.
- `src/startup.rs`, `src/settings.rs`: the start layout taken from the command
  line and what the settings area offers.
- `src/text.rs`, `src/hexinput.rs`: number text, blank text and hex input.
- `app/`: the preset file (JSON), the command line, and the functions that
  hand events to the panel and carry out its effects and camera exchanges
  through a device transport (a trait; the device driver itself is not here).
