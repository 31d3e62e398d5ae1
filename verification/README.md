# mouse_switcher

A tray application that switches the mouse between a normal and a gaming
profile (pointer speed and acceleration), by tray menu or global hotkey.

- `src/` is the verified library: the settings model (`config`), the mouse
  parameters (`mouse`), the tray menu, tooltip and check marks (`tray`), the
  tray icon's pixels (`icon`), hotkey settings (`hotkey`, with the text helpers
  of `text`), and the decision taken on each hotkey or menu command
  (`switcher`), with the laws that hold of them.
- `app/` is the program around it: the settings file (TOML), the system calls
  that read and write the mouse settings, the tray icon, hotkey registration
  and the event loop.
