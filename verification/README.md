# jumpbox_typer

A desktop tool that types pasted text into remote sessions where the clipboard is
blocked, by sending synthetic key events through `ydotool`, and that reads text from
clipboard images with `tesseract`.

- `src/` is the verified library: the key sequences of the Norwegian and US layouts,
  the typing job and its cancellable waits as step functions, keybind parsing and
  matching, the system readiness report and the steps that start `ydotoold`, the
  handling of text-recognition results, the window's reaction to background events and
  to the start/stop keybind.
- `tests/` runs the library on concrete values.
- `app/` is the GTK 4 / libadwaita program around it: widgets, threads, timers,
  processes, files, environment variables and floating-point settings.
