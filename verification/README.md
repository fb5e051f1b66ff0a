# mayara

The protocol logic of a marine radar server, written in Verus.

- `src/` is the verified library. `brand/` reads and writes the protocols of Furuno, Garmin,
  Koden, Navico and Raymarine radars, and of an emulated one: discovery, reports, spokes,
  commands and controls. `ais` keeps track of vessels, `web` decides what the web server
  answers, and `json`, `text`, `bytes`, `range`, `control` and `radar` hold what they share.
- `tests/` runs the library on packets of real radars and on edge cases.
- `app/` is the server around it: sockets, clocks, files, floating point and HTTP.

Numbers that are floating point on the wire or in JSON are kept as their bits; times are
integers, in nanoseconds for vessels and in milliseconds elsewhere.
