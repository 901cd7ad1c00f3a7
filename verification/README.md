# mpsgu

A GTK screenshot tool: take a screenshot of a monitor after an optional
delay, crop it by dragging the edges of a selection, copy it to the
clipboard or save it, and keep the shortcut and save folder in a settings
file.

- `src/` is the verified library: the settings (`settings_manager`), the
  crop selection (`utility`), how presses, drags and confirms act on it
  (`selection`), and the menu texts and picture layout (`menus`).
- `app/` is the GTK program around it: widgets, dialogs, screen capture,
  clipboard, the settings file, and the floating-point placement of the
  picture.
- `tests/` runs the library on concrete values.
