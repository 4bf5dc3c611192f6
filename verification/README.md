# xtouch_gw

The decision logic of a gateway between a Behringer X-Touch control surface,
gamepads and desktop applications (OBS, Windows audio sessions, media keys,
MIDI applications), written in Verus with its contracts proved.

- `src/` — the verified library: MIDI parsing and encoding, the MIDI bridge
  filter and pitch-bend rewriting, OBS action dispatch, camera selection,
  split view and PTZ targeting, OBS event handling and indicator LEDs,
  audio-session fader slots, media-key mapping, gamepad slot assignment and
  button handling, and the action catalogs offered to the editor.
- `tests/` — tests of the library on concrete values.
- `app/` — a small command-line front end, JSON conversions, and the
  floating-point signal shaping and transform geometry, which stay outside
  the verified library.
