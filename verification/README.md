# termwave

Terminal audio visualizer: spectrum bars, waveform, oscilloscope and stereo
views of microphone or system audio.

`src/` is the Verus-verified core: everything the program decides or moves
that does not need floating point or terminal/audio I/O.

- `modes` — visualization modes, their names and cycle order
- `keys` — key events to main-view actions, overlay key filtering
- `settings` — the settings overlay (cursor, adjustments, toggles)
- `menu` — the device selection menu
- `controls` — main-loop decisions, bar count, startup clamps
- `capture` — system-audio tap or input device, device list
- `ring` — rolling sample windows, channel splitting, frame alignment
- `bins` — assignment of FFT bins to spectrum bars
- `layout` — bar columns, block glyphs, overlay placement, sliders
- `theme` — built-in color themes and lookup by name
- `config` — configuration file location and key comments

`app/` is the program around it: audio capture (cpal and the tap
subprocess), FFT and the floating-point bar pipeline (rustfft), the TOML
configuration (serde, toml), command-line parsing (clap) and drawing
(ratatui, crossterm).
