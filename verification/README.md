# gpui_platform

The decisions of GPUI's mobile, browser and touchpad backends, verified with Verus.

A backend hears of touches, gestures, keys, timers and surfaces, and turns them into the
events of one mouse-and-keyboard model. The library holds what it decides: which press is a
tap and which is a scroll, when a gesture takes a finger over, which keystroke a key stands
for, where a tile lies in the atlas, what a frame draws, how credentials are stored.

| Module | What it decides |
| --- | --- |
| `touch` | one finger, pen or mouse: taps, drags, scrolling, momentum |
| `android` | motion and key events, the surface, the main loop, timers, stored credentials |
| `ios` | touches and recognizers, presses, text input, menus, the pasteboard, the keychain |
| `web` | pointer, wheel, key and composition events, the atlas, the frame, the clipboard |
| `windows` | precision touchpads |
| `pen_tilt` | the tilt of a pen |
| `protocol` | what every stream of events keeps: presses are released, pinches end |

A coordinate is carried as the bits of a single-precision number, which the library compares
but does not compute with; lengths, velocities and quotients are measured by the caller.
Times are nanoseconds. Every transition is a spec function on a view of the state, and the
laws in `touch/laws.rs`, `android/laws.rs`, `ios/laws.rs`, `ios/menu_laws.rs` and
`web/laws.rs` hold of those functions.

`app/` talks to the systems: it reads events, measures, and performs what comes back.
`tests/` runs the library on concrete values.
