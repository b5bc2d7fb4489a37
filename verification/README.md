# mer-iot

A library behind an IoT test-data generator: it checks run configurations,
names simulated devices and hands them out in turn, stamps messages with a
simulated clock, works out what each transport (MQTT, HTTP, TCP) needs from a
configuration, and decides, message by message, how a sending run proceeds.
The library's functions are proved with Verus against their contracts. The
calls into `std`, `chrono`, `rand`, `uuid`, `base64`, `reqwest` and
`handlebars` go through small wrappers whose contracts are taken on trust; a
wrapper whose answer depends on the machine (the clock, the random generator,
the file system) states only what holds of every answer.

Layout:

- `src/` — the verified library (`config`, `device`, `payload`, `protocols`,
  `engine`, `report`, `cli`, `error`, `text`).
- `tests/` — tests run against the compiled library.
- `app/` — the `mer` command-line program: argument parsing, file and
  network I/O, the asynchronous run loop, template rendering with the
  payload helpers (which compute in floating point), and the YAML model.
