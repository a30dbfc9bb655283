# whisper_freeflow

Push-to-talk dictation: hold a hotkey, speak, release, and the transcribed
text is typed at the cursor.

`src/` is the verified library: the program's decisions and the
computations that do not need floating point or I/O, with contracts proved
by Verus. Where an outside call decides (the data directory the platform
reports, what `to_lowercase` does beyond ASCII), the contracts say only what
holds whatever it returns.

- `hotkey` — parsing hotkey strings (`mod+mod+...+key`) and the press/release
  state machine that decides what to report and which key events to swallow;
- `worker` — the dictation worker as a state machine: from its state and an
  event (hotkey, tray message, outcome of earlier work) to its next state and
  the actions to carry out;
- `tray` — which menu rows start ticked and what a click means;
- `overlay` — when the indicator shows, where it goes, and the conversion of
  its premultiplied pixels to the window system's BGRA layout;
- `transcriber`, `recorder`, `config`, `autostart` — model names and URLs,
  transcript assembly, download progress, microphone choice, settings and
  where they live, and what to do with the launch-at-login entry.

`app/` is the program around it: audio capture, whisper inference, the
global keyboard hook, text injection, the tray and the Win32 overlay window,
reading and writing the settings file and the launch-at-login entry, and
everything that draws or computes in floating point. It performs the
library's actions and reports their outcomes back.

`tests/` exercises the library on concrete values.
