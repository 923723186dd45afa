# beanal

The verified core of BeAnal, a real-time audio spectrum visualizer, written
in Verus.

## Layout

- `src/` — the library, every function verified:
  - `text.rs` — character-level string helpers; the Unicode tables that std
    consults are named there and reached through thin wrappers.
  - `url.rs` — query-string percent encoding and the decoder for `file://`
    paths, with the law that decoding undoes encoding.
  - `media.rs` — the now-playing track record, title clean-up, the
    Wikipedia lookup's text logic, application-name clean-up and the art
    caches of the media monitors.
  - `colors.rs` — colour profiles, the built-in presets, colour-link
    resolution and user preset lists.
  - `audio_device.rs` — device descriptions (each built from one read of
    the host's device), errors and device-list bookkeeping.
  - `pipewire.rs` — PipeWire capture points: classification of registry
    nodes, the picker order (a stable sort proved sorted, a permutation and
    order-preserving on equal keys), capture targets.
  - `fft_config.rs` — sample-rate tracking and how configuration changes
    reach the analyser.
  - `update_check.rs` — whether a published release is newer, with
    versions parsed and compared by `semver`.
  - `capture_control.rs` — the decisions of the capture loop.
  - `gui_state.rs` — settings-window state and the changes its device and
    colour controls make.
- `tests/` — tests on concrete values.
- `app/` — the program around the library: logging, configuration files,
  PipeWire capture, the floating-point spectrum analysis, media monitors
  and the HTTP calls.

The capture backends and the Linux media monitor in `app/` use the
`pipewire`, `cpal` and `mpris` crates, which need the PipeWire, ALSA and
D-Bus development libraries of the system. They are not listed in
`Cargo.toml`; `app/` builds where they are added. The drawing window of the
visualizer (egui/eframe) is not part of `app/`.
