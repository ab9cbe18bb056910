# HDRify

Enables HDR on all capable displays when a watched game launches, and optionally restores the
previous state of every display when the last one exits. Lives in the system tray.

## Layout

- `src/` holds the rules, written and proved with Verus: which displays are sent which request,
  how the state follows processes, commands and menu choices, what the window, the tray and the
  process picker show. Each function states in its contract what it returns, and `session.rs`
  states what holds over whole runs.
- `app/` holds the Windows program around them: threads, window procedures, DisplayConfig and WMI
  calls, and the settings file in `%LOCALAPPDATA%\hdrify\config.json`.
- `extras/hdrify.exe.manifest` goes beside the program: the process traces need administrator
  privileges, and it asks for them.
- `tests/` runs the library on concrete values.

## What is taken on trust

The names of the running processes come from `sysinfo` and the data directory from `dirs`;
nothing is claimed of either. Of the standard library, `String::push`, `char::from_u32` and
`str::to_lowercase` are taken to do what their documentation says, and of `Path::file_name` what
holds on every platform: which part of a path it can be, and when there is one.
