# hello-world

A WebAssembly Component Model host that runs two guest components on
Wasmtime's Pulley interpreter, with the guests' and the host's logic verified
by Verus.

- `src/guest1.rs`, `src/guest2.rs`: the guests' exports (`run`, `describe`)
  with exact contracts on the strings they return, and the laws of the
  greeting.
- `src/host.rs`: the engine settings (component model, `pulley64`, fuel
  metering), the run of one component, which hands back the instance with
  the record of its export calls, and the export protocol (named `run`
  first, parameterless `run` as a fallback, then `describe`) stated over
  that record; the choice of the greeted name and the printed lines.
- `src/runtime.rs`: the Wasmtime types, the library types that keep an
  engine with its settings, a compiled component with its source, and an
  instance with its own fuelled store and the record of its export calls, and
  the trusted wrappers around the runtime calls.
- `app/main.rs`: the command-line program (arguments, file reading, printing).
- `tests/`: the guests' scenarios and the host run against small components
  written in the WebAssembly text format.
