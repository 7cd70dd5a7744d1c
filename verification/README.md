# dsh_desktop

The verified core of DSH Desktop, a Windows desktop shell that starts the
`dsh web` service, shows its UI, and stops the whole service process tree on
exit.

- `src/` is the library, verified with Verus: version strings (`version`),
  percent-encoding and shell-page URLs (`encode`), user preferences (`prefs`),
  the shared application state and window-close decisions (`state`), the
  command lines that manage the service (`service`), shell page states and the
  tray menu (`shell`), the startup sequence (`startup`), and the update check
  and upgrade (`update`). The stateful flows are state machines: the
  application performs each action and reports what happened as the next
  event.
- `app/` is the Tauri application around it: windows, tray, dialogs, process
  spawning, TCP probes and the preferences file.
- `tests/` exercises the library.
