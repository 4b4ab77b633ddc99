# argon-utils

Monitoring and control of Argon40 Raspberry Pi enclosures, the Argon PWR UPS and the Argon ONE UP's
battery: a daemon (`argond`) and a command line tool (`argonctl`).

`src/` is the library: the rules of both programs, verified with Verus. It touches no device, file
or bus. It says which bytes go where, when a poweroff is scheduled or called off, what a reading
means and what is printed of it, and takes back what became of each step.

- `src/device/` -- configuration, the fan and its guard, the case MCU, the UPS and its clock and wake
  schedule, the battery gauge, the button, the lid, the display, the control protocol.
- `src/daemon/` -- what the daemon decides: whether to start what, what to do after each poll, who may
  ask for what over the bus.
- `src/cli/` -- what the commands check before they act, and the texts and JSON they print.
- `src/text.rs`, `src/time.rs`, `src/json.rs` -- strings, time and JSON trees that the rest is stated
  over.

Properties that span functions are public proof functions named `law_..`.

`tests/` runs the library. `app/` is the programs around it: argument handling, serial and I2C ports,
GPIO, systemd and D-Bus. It needs the `argon_hal`, `argon_proto` and `argon_telemetry` crates.

This software can stop a fan, cut power and shut down the host. Read-only is the default, power
actions need `mode = "full"`, and a stopped daemon leaves the fan running.
