# vacs core

The decision-making core of the vacs air-traffic voice client, written in Verus and proved
against its contracts:

- `src/device.rs`, `src/backend.rs`, `src/mock.rs`, `src/audio.rs`: audio host, device and
  stream-configuration selection over a snapshot of the audio backend, device naming, stream
  recovery and sound routing.
- `src/keybinds.rs`, `src/keybinds/`: keybind configuration, the keybind engine (push-to-talk,
  push-to-mute, radio push-to-talk with its Wayland fallback, call control, radio prio) and
  joystick capture.
- `src/calls.rs`, `src/call_events.rs`, `src/signaling.rs`, `src/webrtc.rs`: calls, their
  invitations and participants, what signaling messages do to them, and peer bookkeeping.
- `src/radio.rs`, `src/track_audio.rs`: radio integrations and the TrackAudio state.
- `src/wav.rs`, `src/playback.rs`: the playhead of decoded clips and the replay feature.
- `src/config.rs`, `src/platform.rs`, `src/external.rs`: settings defaults, window placement,
  platform detection, host program environment and URL checks.

`app/` is a small command-line host around the library: it loads the layered TOML settings,
detects the platform from the environment, and drives the keybind engine from events read on
standard input. The tests under `tests/` exercise the library on concrete values.

Collections keyed by text (incoming calls, stations, WebRTC peers, joystick devices, shortcut
bindings) are held as `Vec`s with a distinctness invariant rather than in `HashMap`s or
`HashSet`s: with `String` keys, or keys of this crate's own types with derived `Eq` and `Hash`,
vstd's specifications of the hash collections let nothing about their contents be proved, so
the contracts are stated over the `Vec`s' sequence views instead.
