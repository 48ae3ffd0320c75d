# ng_gateway_southward

Southward drivers of an industrial gateway: IEC 60870-5-104 telecontrol stations
and controllers that speak the MC protocol (SLMP frames 1E, 3E and 4E).

The library under `src/` decides and computes; every item of it is verified with
Verus. It performs no input or output: sockets, timers and tasks stand in `app/`,
which hands the library plain values and carries out what comes back.

## Layout

- `src/wire.rs`, `src/text.rs`, `src/clock.rs`: bytes on the wire, texts, moments
- `src/gateway.rs`, `src/schema.rs`: values, errors, metrics, publications and the
  schema of settings
- `src/iec104/`: frames (`protocol/frame`), the link session (`protocol/session`; what
  holds of a connection from its opening on stands in `run.rs`),
  points and what stations report for them (`points.rs`, `extract.rs`), commands
  (`driver.rs`), reconnecting (`supervisor.rs`)
- `src/mc/`: frames (`protocol/frame`), planning of batches (`protocol/planner.rs`,
  `plans.rs`, `merge.rs`, `random.rs`) and what they do to the memory of a controller
  (`memory.rs`), reads and writes of a session (`protocol/session`),
  collection over a pool of connections (`collect.rs`, `handle.rs`)
- `tests/`: tests of the library
- `app/`: connection loops, clients, configuration files, floating-point numbers

## Trust

Calls into outside crates (`bytes`, `byteorder`, `chrono`, `dashmap`) and into parts
of the standard library without a specification stand behind functions marked
`external_body`; the doc comment of each says what is taken for granted.
