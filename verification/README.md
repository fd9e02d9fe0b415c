# Articuelate

Articuelate is an audio cue system for live show control: a show is a flat
chain of cues, and the operator walks it with GO while the audio engine plays
the cues' media.

The library (`src/`) holds the logic of the system, written in Verus with its
behaviour stated as contracts and proved (all but the values held by the
lock-free playback metrics, which sit in standard atomics that have no
model of their contents):

- `model` — cue identities, colours, triggers, cue kinds and cues;
- `cuelist` — the flat cue chain with lookup by identity, and its laws;
- `state` — execution state (playhead, per-cue playback states) and the
  sample show;
- `exec` — the decision of the execution engine for each operator intent or
  audio event, and the laws of GO;
- `audio` — commands and events of the audio subsystem, driver errors, the
  streaming decoder's control decisions, the output callback's voice
  updates, the driver router and the telemetry bookkeeping;
- `metrics` — lock-free per-cue playback metrics;
- `theme` — theme-file values (font weights, hexadecimal colours) and the
  merging of theme files;
- `ui`, `layout`, `backend` — the texts, icons and panel decisions of the
  workspace views, and the cue model of the desktop shell;
- `text` — decimal rendering used by the labels.

`app/` is the program around the library: the Tokio event loops, the audio
drivers, theme loading from disk and live reload. `tests/` exercises the
library on concrete values.
