# codex-pet-limit-rings

A Windows companion app that draws usage-limit rings around the Codex desktop
pet: the outer ring shows the short-window limit, the inner ring the weekly
limit, and hovering shows the exact percentages. It follows the pet's live
overlay window, keeps up with drags, and lives in the notification area.

The decisions of the app are a library verified with Verus (`src/`):

- `geometry`: rectangles and the size tests that pick the pet overlay window.
- `tracker`, `timer`: following the overlay window and pacing desktop searches.
- `pet_state`: reading the pet's frame from Codex's state file, cached by
  modification time.
- `follow`: drag following, jitter holding, ring placement, redraw pacing,
  and the frame as a whole as a step machine (`FrameFollower::frame_step`):
  the app performs each action (a monitor's scale, placing the window,
  drawing, the timer) and hands the result back.
- `hover`: whether the mouse is over the pet or the ring window.
- `rate_limits`, `json`: cutting the rate-limit event out of a log line and
  finding the access token in a JSON document.
- `summary`, `menu`, `config`: the tray summary, the tray commands, and the
  command line.
- `color`, `label`, `wide`: ring colors, pixel byte order, label blending and
  UTF-16 text for the Windows API.

`app/` holds the Windows program around it: the Win32 window and tray icon,
file, network and database access, JSON parsing, and the floating-point
drawing with tiny-skia. It builds only on Windows; elsewhere it prints a note.
