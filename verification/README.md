# zinput

The verified core of an input-device remapping service. Physical
controllers (Joy-Cons, Pro Controllers, GameCube adaptors, Steam
Controllers, PowerA pads, XInput and SDL2 pads, and network sources) are
decoded into one gamepad model; the gamepad state is encoded again for
emulated outputs (Xbox 360 and DualShock 4 pads, Linux uinput joysticks,
DSU servers and network sinks).

Layout:

- `src/` — the library, verified with Verus:
  - `component/` — the gamepad model: buttons, analogs, controller
    descriptions, remapping;
  - `backend/` — decoders from controller reports to the gamepad model;
  - `frontend/` — encoders from the gamepad model to emulated devices;
  - `swi.rs`, `znet.rs` — the two network protocols' logic;
  - `engine.rs` — the device registry (stable ids, exclusive handles,
    views, release);
  - `routes.rs`, `virt.rs` — virtual devices: routing of input updates and
    the check of a program's input requirements;
  - `event.rs`, `plugin.rs`, `device.rs`, `editor.rs`, `text.rs`,
    `bits.rs`, `xusb.rs` — events, plugin status, device descriptions and
    shared helpers.
- `tests/` — tests of the library on concrete values.
- `app/` — the service around the library: threads, locks, files, the
  uinput device, and the floating-point stick and trigger calibration.

Design notes:

- The device registry (`src/engine.rs`) is an owned structure: a vector of
  device slots with the distinctness of identifiers as its type invariant,
  changed only through `&mut self`. The service shares its registry
  between threads in concurrent maps (`dashmap::DashMap`), whose methods
  change the map behind a shared reference; a contract over such a map
  would describe state that changes under a `&` borrow, so the library does
  not declare it. `app/engine.rs` keeps the registry behind a lock and the
  per-device data in a `DashMap`.
- Routing tables (`src/routes.rs`) are a vector of input identifiers, each
  with its destinations, in the order the inputs were first routed.
- The USB drivers (GameCube adaptor, Steam Controller, PowerA pads) read
  their reports through the `hidcon` crate, which is not available here;
  their button, stick and slot logic is in `src/backend/`, and the USB
  loop that would feed it is not part of `app/`.
- Event loops whose outside work needs crates that are not available here
  (SDL2, ViGEm, the DSU protocol, hidapi) keep their decisions in `src/`
  as step functions over plain state: `SdlDevices::step`, `target_plan`
  and `targets_for_update`, `DsuClients::query_step`, and
  `CalibrationReader::step` for the four Joy-Con calibration reads.
