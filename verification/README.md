# session_watch

Verified decision logic of a desktop session listener, which tells an app
when the user is back at an unlocked session (after an unlock or a resume
from sleep).

- `src/` (Verus): decoding of Win32 session and power messages
  (`win_message`), the state machine that drives the hidden Win32 message
  window through its life (`message_loop`) with laws over every run of it
  (`loop_laws`), the notifications observed on macOS (`observed`) and the
  window level above the menu bar (`menu_bar`).
- `app/` (plain Rust): the platform glue that carries out what the library
  decides: Win32 and AppKit calls, the listener threads, the event channel
  and the macOS window extensions.
- `tests/`: scenarios on concrete values.
