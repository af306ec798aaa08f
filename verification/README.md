# traffic-light-display

Software for a traffic light with a 10x10 LED panel in each of its three lamps:
it scrolls a marquee, shows frames streamed to it over UDP, serves a setup portal
and takes firmware updates over the air.

`src/` is a library written in Verus: what the light computes and the rules it
goes by, with contracts that are proved. `app/` is the program around it: the
hardware, the radio, the sockets, the http server and the storage. It does what
the library tells it to and reports what came of it. `tests/` runs the library on
concrete values.

| Module | What it holds |
|---|---|
| `panels`, `frame` | the axis across the panels and its gaps, rotation, streamed frames |
| `font`, `marquee`, `animation` | glyphs, the scrolling text, and when it scrolls |
| `display`, `console` | the live settings, the string of LEDs, the picture as text |
| `text`, `base64`, `form`, `html` | text in and out: numbers, credentials, form bodies, escaping |
| `auth`, `routes` | who is let into the portal, and to what |
| `page`, `portal`, `version` | what the portal answers |
| `settings`, `store`, `networks`, `boot` | what forms change, what is stored, and what a boot does with it |
| `ota`, `health` | firmware uploads, and whether a new image is kept |

## What is taken on trust

The proofs rest on four functions of the standard library doing what their
documentation says: `String::push`, `String::from_utf8`,
`String::from_utf8_lossy` (on bytes that are not well-formed only that its
result depends on the bytes alone) and `core::hint::black_box`. Running time is
not part of any contract, so that comparing secrets takes the same time whatever
they hold is a property of the code, not a theorem.

What is said of storage, such as that saved credentials are asked for after a
reboot, rests on a picture of it in `store`: a write is kept and read back as it
was, except that a text with a NUL in it is refused and leaves what was there,
and that a text is found again only if it is shorter, in bytes, than the buffer
it is read into. Those sizes are constants of `store`. A write that fails for
another reason, such as worn or full flash, is outside that picture.

What is said of uploads holds of the events that the program reports: that the
slot was opened, that a piece was written, that the boot pointer was moved.
