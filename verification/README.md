# mmlx — Music Macro Language Extended

A music composition language core and text-first DAW engine whose logic is
verified with Verus.

Durations are exact tick counts (`TICKS_PER_WHOLE` ticks per whole note) and
real-valued parameters travel as IEEE-754 single-precision bit patterns, so
every structural operation on scores is stated and proved over integers.

## Layout

- `src/` — the verified library.
  - `note`, `attrs`, `edit`, `compose` — the score tree, ordered parameter
    maps, parameter application and transposition, and `ser`/`par`/`parmin`/
    `fork` composition with implicit durations, ties, previous pitches and
    repeat markers resolved.
  - `algo`, `series` — composition transforms (retrograde, rotate, invert,
    ambitus, Euclidean rhythms, bars, …) and generative series (Markov,
    random walk, L-systems, Schillinger, twelve-tone rows, infinity series).
  - `items`, `names`, `words`, `keysig`, `params` — the macro item splitter,
    the note vocabulary, descriptions of pitches and note values, key
    signatures, and parameter keys and values.
  - `midi`, `sf2` — Standard MIDI File export and import, SoundFont bank
    layout.
  - `chip`, `synth`, `routing` — the integer state of the chip voices and the
    synthesizer voice, and bus/send routing.
  - `server`, `transport`, `repl`, `ids`, `audio` — the editor line protocol,
    the playback transport's decisions, the evaluator's code wrappers, note
    ids and the mute flag.
  - `score_text`, `songs`, `conformance` — the score text in which the
    compiled-in songs are written and its interpreter, the stage theme
    (intro and loop) with the song stream registry and the endless
    arpeggio, and the conformance song that exercises every feature, with
    the registry of songs that play by name.
  - `scope` — which parameters are in force as a score plays: setters
    persist for later siblings, branches and forks keep their changes.
  - `laws` — properties that hold across calls.
- `tests/` — tests of the library.
- `app/` — the floating-point event stream, instruments and effects, the
  playback engine that carries out the transport's effects, and a host that
  plays the compiled-in songs.
