# ratherapia

A calming terminal synth: ambient sound, rain textures and a reactive
terminal scene around a small mouse figure, with an optional inline 3D
mouse for the Ratty terminal and a headless renderer that writes the
interface to an uncompressed AVI file.

The library under `src/` is verified with Verus:

- `app`, `notes`, `input`: the discrete controls (note, octave, waveform,
  texture, `gate_open`, view mode), note names, key bindings and the
  commands they give, each change returning the outside work it asks for.
- `scene`, `sprites`, `rain`, `canvas`, `view`: the weather scene as a
  sequence of character plots over a canvas, last plot wins.
- `panel`: the header and footer status lines.
- `ratty`: the escape sequences of the Ratty graphics protocol, the
  placement of the 3D mouse and what each frame writes for it.
- `glyph`, `raster`: a 5x7 font and the rasterizer from terminal cells to
  RGB pixels.
- `avi`: the uncompressed AVI encoder.

`app/` holds the program around it: the terminal loop, the audio voice,
the particle engine, the floating-point levels and animation clock, and
file output.
