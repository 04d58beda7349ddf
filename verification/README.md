# soundgif

SoundGIF stores compressed audio inside a valid GIF: a GIF89a application extension
(`SNDGIF01` / `001`) placed before the trailer carries a small payload (`SGA1`, version 1) with
playback flags, start offset, audio length, CRC-32, MIME type, file name and the audio bytes,
split into data sub-blocks of at most 255 bytes. Ordinary viewers skip the extension.

The library in `src/` is verified with Verus:

- `gif`, `extension`, `payload`, `le`, `crc`: the file format — parsing a GIF's block
  structure, framing and reading the extension, the payload header, CRC-32.
- `ops`, `embed`: embedding, extracting, inspecting and stripping audio, with proofs that a
  payload reads back as written, that embedding leaves exactly one extension and that
  stripping restores the GIF.
- `convert`, `media`: the video conversion as a step function (validate, render, copy the
  audio or fall back to Opus, embed, write), the FFmpeg filter graph and MIME detection.
- `ffmpeg`: how the FFmpeg program is found (a path given with `--ffmpeg` alone, else beside
  the executable, then on `PATH`) and the FFmpeg messages.
- `cli`: command-line parsing and messages.
- `player`, `desktop`: the desktop player's decisions as a step function from state and
  event to state and actions; `ui` holds the player's web page.

`app/` holds the programs around it: the `soundgif` command-line tool, which reads and writes
files and runs FFmpeg, and the desktop player window (tao, wry, rfd).
