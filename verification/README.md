# android_tools

A library for driving `adb` against Android devices, verified with Verus.

- `src/text.rs` — whitespace, trimming, line and word splitting, searching.
- `src/command.rs` — the result of one `adb` run, built from its raw output.
- `src/args.rs` — the argument list of every single-command operation.
- `src/devices.rs` — reading `adb devices -l` and filling in model names.
- `src/foreground.rs` — the package of the focused window.
- `src/scripts.rs` — the backup and restore shell scripts.
- `src/step.rs`, `src/uninstall.rs`, `src/deletion.rs`, `src/backup.rs`,
  `src/restore.rs` — operations that run several commands, each a state
  that takes the last command's result and says what to run next or how
  the operation ended.
- `src/tools.rs` — choosing `adb`, finding `scrcpy`, shell windows and
  screen mirroring.
- `src/unpack.rs` — unpacking the bundled tools into their cache directory.
- `src/laws.rs` — properties that span these functions.
- `app/` — the Tauri application that runs the processes and calls the
  library.
