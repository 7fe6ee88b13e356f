# xpans_plugins

Audio plugins for the xpans spatial audio ecosystem: a Scene Editor that places
a source and announces its changes as SPE (Spatial Property Exchange) SysEx
messages, a Scene Exporter that records a scene range to an xpans Spatial Record
file, and Headphone, Stereo and Mono monitors that render the scene.

Layout:

- `src/` is the library, checked by Verus: the SPE message model (`spe`),
  source state (`source`, `changes`), event filtering (`events`), the editor and
  exporter state machines (`editor`, `exporter`, `ui`), the per-frame scheduling
  of spatial events (`render`, `sources`), the output buffer (`output`), read
  positions of the audio input (`input`) and the monitor settings (`monitor`).
  Public proof functions state the laws that relate several operations.
- `app/` holds the plugins themselves: the host API impls, parameters, SysEx
  encoding, the ring buffers shared with the renderer, file writing and the
  floating-point mixing.
- `tests/` runs the library on concrete values.
