# mfekglif

Editing logic of the MFEKglif glyph editor, verified with Verus.

- `src/` is the verified library: joining icon glyphs into labels (`icons`), the
  measuring tool's state (`measure`), the variable-width stroke tool's table of width
  handles and its mouse handling (`vws`), what a change of a font file on disk means
  (`filesystem_watch`), the editor's events (`events`) and the tool behaviour trait
  (`tool_behaviors`).
- `app/` is the editor side: drawing with Skia, floating-point geometry of outlines and
  handles, stroking with MFEKmath, and the loop over the file watcher's channel.
- `tests/` runs the library on concrete values.
