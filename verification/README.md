# journey

The rules of a fixed-step 2D action game and of its procedural audio, written
in Verus and proved against their contracts.

- `src/cadence`: step clock, Euclidean rhythms, Markov melodies, the LFSR and
  the sequencer core that decides which track fires on which step.
- `src/resonance`: wavetables, noise, PCM buffers, mixing and WAV encoding.
- `src/engine`: input bindings, animation frame stepping, freeze frames,
  colour parsing and row filling.
- `src/game`: the combat phase machine and input buffer, jump buffering and
  coyote time, player and enemy decisions, the level format with its
  collision-box merging, and audio routing.
- `app/`: the floating-point side (tempo, envelopes, voices, move scaling,
  world placement of the level) and a small program that renders a music
  scene to a WAV file.
- `tests/`: tests of the library on concrete values.
