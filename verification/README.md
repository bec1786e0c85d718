# maykr

A loader library for modding a game: once injected, it finds four functions
of the game by their code signatures, hooks the one that opens resource
containers, and serves chosen containers from disk. It also stands in for
the system's `version.dll`, forwarding each of its exports to the real one.

- `src/` is the verified library: error codes, the hook-installation state
  machine, the executable-header reader, the resource-record arithmetic and
  file-object patch, the UTF-16 path decoding, the `version.dll` forwarding
  targets and the user-facing texts.
- `app/` holds the parts that touch process memory, the operating system and
  the hooking engine; it carries out what the library decides.
- `tests/` runs the library on concrete values.
