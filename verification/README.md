# trekr

The timeline model of trekr, a MIDI-first looping tracker, written in Verus with its
behaviour stated in `requires`/`ensures` contracts and proved.

## Layout

- `src/` is the verified library.
  - `geometry`: SDL-style rectangles (clamping rules stated as spec functions) and colours.
  - `project`, `timeline`, `recording`: tracks, loops, recording passes, and what committing a pass does.
  - `midi_fx`, `fx_rack`, `fx_layout`: the per-track MIDI FX racks, their editing operations and their on-screen layout.
  - `clip_align`, `align_panel`, `keyboard`: the clip-align panel, its maths, and its pointer and key handling.
  - `lanes`, `track_strip`, `columns`, `transport_strip`: the stacked lane view, the label strip controls, the track columns and the transport strip.
  - `actions`, `track_actions`, `pointer`: the action dispatcher, the pointer dispatch of the timeline page and its hover targets.
  - `fx_menu`: the effect-type pop-up menu of a rack slot.
  - `marks`: what the recording-view controls of a label strip show.
  - `laws`: properties that relate several operations.
- `tests/` holds the tests, which run against the compiled library.
- `app/` is the program around the library: build metadata, the start-up logo fade (floating point), serialisable copies of the capture options, and the conversion of SDL events and rectangles.
