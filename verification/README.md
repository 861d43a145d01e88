# rc_car

Control logic of an ESP32-powered RC car, verified with Verus, and the firmware around it.

- `src/` is the library. It computes on plain values: pins, timers and radios are described by
  what they are set to, and every loop that waits for the hardware is a function from an event
  to the next action.
  - `motor`: servo sweeps, DC motors, and handing out the timers and channels of the LED control
    and MCPWM peripherals. The types of the spawners keep count of what is in use.
  - `gamepad`: the state of a Bluetooth pad, its status line, and the COBS frames in which it
    arrives over the UART.
  - `ps2`, `ps2_controller_task`: the wire protocol of a PS2 controller, and what it reports.
  - `web`, `wifi`: the command endpoint, the pages, and keeping the access point up.
  - `display`: what the display shows.
- `app/` is the firmware. It carries out the actions and hands the outcome back. It is
  written for the ESP32-S3 on the `esp-hal` family of crates, which `Cargo.toml` leaves out
  because they do not build on the host.
- `tests/` runs the library on the host.

Laws that relate several functions are public proof functions named `law_...`.
