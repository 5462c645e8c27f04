# oh_my_tab_settings

The settings window of Oh My Tab, split in two:

- `src/` is the library. It decides where everything in the window goes, which control
  writes which value of the configuration, and how selects, hints, confirmation cards, the
  sidebar highlight and the shortcut recorder move from state to state. It is written in
  Verus, and every function carries a contract that is proved.
- `app/` is the glue to AppKit. It makes the views, carries out the plans and effects that
  the library returns, and hands events back to it.

The library works on plain values. Lengths are whole thousandths of a point, colours are
`0xRRGGBBAA`, and a view is a `usize` in which zero means that there is none. Tables that
belong to the rest of the application, such as the palette, the scroll modes and the system
actions, are arguments.

Public proof functions state what holds across several calls: panels stay on the screen,
only one select and one confirmation card is open at a time, restoring the defaults of one
page leaves the others alone, and so on.
