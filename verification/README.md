# usage_companion

The pixel characters and the detail panel of a taskbar usage monitor: a cat, a dog or a girl roams
above the taskbar, comments on how much of the usage limits is spent, and reacts to the mouse; a
card shows the session and weekly bars of every model.

`src/` is the verified library: roaming, moods, phrases in eight languages, forecasts, the pixels of
every sprite, bubble and card, and the reaction to every event. It does no I/O and no floating-point
arithmetic: the pace behind a forecast, the length of a bar and its rounded percentage are computed
in `app/`, which hands them over as whole numbers and text. An event takes the state of a window and
returns what is to be done about that window.

| module | what it is about |
| --- | --- |
| `canvas` | painting blocks into a pixel buffer |
| `position` | positions rounded as single precision numbers are |
| `rng` | the random number generator |
| `language`, `phrases` | what the characters say |
| `forecast` | when the session would be used up |
| `mood`, `kind`, `dpi` | bands of usage, who is on show, display scale |
| `critter` | one character from tick to tick |
| `sprite`, `girl` | the sprites |
| `picture` | sprites mirrored and scaled |
| `speech`, `scene` | bubbles, and all that a frame shows |
| `character` | the character window and its events |
| `laws` | what holds of that window from event to event |
| `detail` | the detail panel |

`tests/` runs the library, among other things against single precision arithmetic. `app/` is the
Win32 side: windows, timers, messages and GDI text. It compiles on Windows only.
