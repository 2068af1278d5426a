# rnbo-move-control

Controls RNBO graphs from the Ableton Move: its buttons, encoders and jog
wheel drive a set of menus on the device display, and the controller talks to
the RNBO runner over OSC.

The library under `src/` carries its specifications and their proofs:

- `midi`, `input`: device MIDI messages, the bytes the controller keeps for
  itself, and the decoding of button, encoder and power events.
- `events`, `nav`, `context`, `machines`, `dispatch`: the three menu state
  machines (top level, main menu, parameter views) and how an event runs
  through them.
- `controller`, `screen`, `commands`: the controller state, the button and
  LED lights each screen asks for, and the commands the menus emit, turned
  into OSC messages.
- `incoming`, `instances`, `views`, `view`, `names`, `text`: the runner's
  messages, the instance and parameter bookkeeping, parameter views, sorted
  name lists and decimal text.
- `popup`, `display`, `config`, `host`, `osc`: popups, the display buffer,
  settings, and the decisions the program around the controller takes.
- `userview`: user views: the direct-drawing header and image of a layer,
  buffer formats, the view a buffer's meta data declares, the layers of a
  view stably sorted by z, the plan for drawing them, and the views by index
  with the one shown (selected and changed by the `/rnboctl/userview`
  messages).
- `json`: the values read from JSON text (websocket notifications, meta
  data), named as functions of the text.
- `laws`: properties that span several functions, stated and proved.

`app/` is the program around the library: the audio server clients, the
display drawing (user view layers read from shared memory included), the runner's HTTP and websocket interfaces, floating-point
parameter values, child processes and the settings file. `tests/` runs the
library on concrete inputs.
