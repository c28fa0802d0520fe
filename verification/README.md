# screen_grabbing

A screen-grabbing utility: it captures the whole screen or an area dragged
with the mouse (after an optional delay), shows the capture, crops it,
annotates it with pencil strokes, highlights, arrows, circles, rectangles
and text, copies it to the clipboard and saves it in several formats. Global
hotkeys start captures, and the keyboard shortcuts of the main window can be
customized.

The crate is a library verified with Verus (`src/`) and a druid application
around it (`app/`).

`src/` holds the logic, each function with a contract that Verus proves:

- `format`: output formats, their extensions, file names and save paths;
- `text`: the splitting of key combinations, the test for a blank name, the
  file name made from a timestamp, and the size of a text annotation;
- `tools`: the annotation tools and the colour palette;
- `shortcuts`: the shortcut table (kept in an `im` hash map) and when a
  combination clashes with it;
- `state`: the application state the decisions act on, and renaming;
- `recorder`: the recording of a new shortcut, key by key;
- `typing`: what the recorder's indicators say of the keys typed so far;
- `commands`: the commands typed in the main window and the global hotkey
  messages;
- `global_hotkey`: the description of a global hotkey from a combination;
- `capture`: the decisions of the capture overlay (timers, selection,
  capture);
- `view`: the buttons of the capture window and what they do;
- `draw`: the decisions of the editor's drawing surface;
- `layers`: the lists of annotations, the one being drawn, the eraser and
  the text buttons;
- `resize`: which part of the crop rectangle a drag holds, and what each
  pointer event does to it.

`app/` holds what computes with floating-point window coordinates or talks
to the windowing system, the screens, the clipboard and files.
