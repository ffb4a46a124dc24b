# Keyboard layout indicator

A tray program for Windows that shows the current keyboard layout (`EN`,
`RU`, or the language identifier in hexadecimal) in a large overlay in the
middle of the screen: at start-up, when the layout changes, and when a new
typing session begins after a pause. The tray menu pauses and resumes it and
sets the text size, the poll interval, the display time and the typing pause.

- `src/` is the verified library: the state machine that turns window events
  into actions (`state`), the tray menu model and command decoding (`menu`),
  the indicator text (`layout`), UTF-16 encoding (`utf16`), the typing keys
  (`keys`), window placement (`geometry`), text sizes (`indicator`), icon
  and font ownership (`handles`), the
  file-version formatting (`version`), and laws that relate them (`laws`).
- `app/` is the Win32 program around it: the window, the tray icon, timers,
  painting, and the calls that read the layout, the keys and the clock.
