# LightCapture

A screen recorder's engine and tray logic, written in Verus and proved against its contracts.

- `src/` is the verified library: recording presets and file names, frame pacing and the
  adaptive frame rate, encoder choice, session counters, audio timing and the bounded PCM
  queue, stream remux arguments, persisted settings, the tray menu and hotkeys, the recorder
  bar, toast XML, and the decisions of the tray's session loop.
- `tests/` runs the library on concrete values.
- `app/` is the headless command-line recorder around the library: argument parsing, Ctrl+C,
  the progress loop, `ffmpeg` publishing, the settings file on disk, and the floating-point
  sample conversion.

Capturing the screen and audio needs a Windows capture backend, which this crate does not
contain: on every platform `probe` reports software encoding only, listing displays or
windows gives `UnsupportedPlatform`, and so does starting a session. File-name stamps are
`YYYYMMDD-HHMMSS` in UTC; no local time zone is read.
