# rnote_logic

The decisions of a handwriting notes application's main window, verified
with Verus, and the toolkit glue that runs them.

- `src/pens.rs`: the pen styles, the set of pens, and which pen draws an
  overlay on the canvas.
- `src/appwindow/chrome.rs`: the sidebar flap, its reveal toggle, the
  header bar's title buttons, the application menu's place and the flap
  resizer, as a state machine from flap events to widget changes.
- `src/appwindow/color_scheme.rs`: how colour schemes are recorded in and
  restored from the settings.
- `src/appwindow/window_size.rs`: the window geometry kept between runs.
- `src/appwindow/canvas_view.rs`: centring the canvas view and placing the
  selection modifier over the canvas.
- `src/appwindow/lifecycle.rs`: closing, startup files, opening files and
  the settings-driven parts of the interface.
- `app/`: GTK and libadwaita glue and the floating-point canvas geometry.
  It connects the flap, canvas and settings signals to the library and
  performs its decisions; the application's own widgets (sheet, canvas,
  selection, dialogs) are reached through the `WindowParts` trait.
