# cosmic_paste

A clipboard manager for the COSMIC desktop (Wayland), with its logic verified by Verus.

- `src/` is the verified library: the clipboard history (newest entry first, de-duplication
  by SHA-256 fingerprint, "growing lines", count and memory limits, byte accounting), the
  active index and its navigation, the history file framing and load recovery, the D-Bus
  service's decisions, the wlr-data-control selection and write bookkeeping, the self-copy
  guards, the applet's popup and tooltip model, the CLI's listing and error mapping,
  portal shortcut bindings, and the text formatting of previews and toasts.
- `app/` is the program around it: D-Bus (zbus), the Wayland monitor thread, the portal,
  notifications, files, sockets, logging and argument parsing.
- `tests/` exercise the library with the real outside crates linked.

## Behaviour worth knowing

- **Byte accounting.** A history's byte total is the sum of its entries' sizes, saturated
  at `u64::MAX`: additions saturate; a removal subtracts exactly below that point and
  recounts the entries at it, so the total never drifts from the entries.
- **History file header.** The file starts with the 21 bytes `COSMIC_PASTE_HISTORY\0`
  (twenty letters and a NUL), then the format version as a little-endian `u32` at offset
  21, then the RON body.
- **Self-copy guards.** The service's guard suppresses every clipboard event for
  5250 ms after a navigation write is armed, or until the written text is seen; the
  monitor's guard ignores its own copy for 500 ms. The clock is read only as elapsed
  nanoseconds; the window comparison is verified code.
- **Ingest loop.** Every accepted clipboard event is ingested and the history saved; no
  separate check skips text that equals the active entry (an event while a navigation
  write is pending is held back by the guard instead).
- **Default shortcuts.** `<Ctrl>F9` selects the newer entry, `<Ctrl>F10` the older one and
  `<Ctrl>F11` opens the history popup. The daemon registers them with the desktop's
  global-shortcuts portal at start-up; opening the history also writes the trigger file
  and asks the applet through D-Bus activation.
- **Settings.** The defaults are 100 history entries, 100 displayed entries and a
  72-character preview width.
