# synth-8080

The patch-bay and control logic of the synth-8080 modular synthesizer, with
its behaviour stated in contracts and proved.

- `src/` is the library. Its modules:
  - `types`, `common`, `error`: module kinds, connections, wave forms, errors.
  - `router`: the module table built from a list of module kinds, and which
    module answers to each module id.
  - `controller`: the patch-bay: making and undoing connections, naming them,
    and pairing oscillators with their envelope filters.
  - `synth`: the default module list and patch, and the plan of a sample
    pass (which outputs are summed into which inputs).
  - `midi_osc`: which voice of the MIDI oscillator plays which note.
  - `envelope`: the stages of the ADSR, AD and ADBDR envelopes.
  - `buffers`: the read and write positions of the echo and delay buffers.
  - `notes`: notes, their names and their pitch in semitones.
  - `communications`: the framing of control messages to and from the
    controls board.
  - `graphs`: the DOT text of the graph of a module list.
  - `dot`: the calls into `dot-writer`, each with the text it writes.
  - `controls`: the multiplexer select lines and the command lines of the
    controls board.
- `tests/` runs the library on concrete values.
- `app/` is the program around the library: the floating-point sound
  modules, the audio stream, the serialisable wire types and `main`.
