# rsnip

A screen tool for Windows: it snips regions of the desktop, edits them, records them as video and
reads the text in them. A daemon waits for hotkeys and for commands from other processes; a dimmed
overlay lets a region be picked; an editor draws on snips before they are copied.

`src/` is the verified library. It decides and computes:

- `app`, `daemon`, `ipc`, `hotkeys`, `single_instance`: commands, what the daemon does for each of
  them step by step, the protocol, key combinations.
- `overlay`: picking a region, the picture under the pointer, notices, the frame around a recording.
- `editor`, `canvas`, `font`: the document and its history, tools, the window, drawing.
- `screen`, `pixels`, `images`, `clipboard`: monitors, captures, windows, formats of images.
- `recording`, `ocr`: frames in step with the clock, the pointer, the encoder, text recognition.
- `config`, `paths`, `errors`, `text`, `time`, `math`: settings, files and plain helpers.

Each function states what it returns or changes; the proof functions named `law_*` relate several of
them. The few functions marked `external_body` call the standard library or the `image` crate, and
say in their comments what is taken for granted.

`app/` is the program around the library: windows, files, processes, threads and system calls. It
carries out the actions that the library decides on and hands back what became of them.

`tests/` runs the library.
