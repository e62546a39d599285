# audio_capture

System audio capture configuration and the decision logic of its two backends, verified
with Verus.

- `src/lib.rs`: sample formats, capture configuration (with its default), capture
  sources, and the choice of backend per platform.
- `src/pipewire_capture.rs`: the Linux backend's decisions: recorder choice (`pw-cat`,
  else `pacat` on the default sink's monitor), recorder arguments, frame size, the start
  sequence and the frame reader loop as state machines, and the capture sources of a `pactl` sink listing.
- `src/coreaudio.rs`: the macOS backend's decisions: the stream description, the
  AudioUnit setup sequence (including the capture input procedure) as a state machine
  with its errors and cleanups, the whole-frame slices handed to the callback, and the
  loopback source of the default output device.
- `src/capture_state.rs`: whether a backend captures, across `start` and `stop`.
- `src/text.rs`, `src/decimal.rs`: trimming, lines and tab fields; decimal numerals.
- `src/laws.rs`: properties across these functions.
- `app/`: the backends themselves (processes, threads, CoreAudio calls), which run the
  state machines and feed them what they observe.
