# nxzr

Emulation of Nintendo Switch controllers (Pro Controller, Joy-Con) over
Bluetooth HID, as a verified library.

- `src/` is verified with Verus: controller state (buttons, sticks, IMU),
  the SPI flash memory and its stick calibrations, input and output report
  framing, the reply protocol that answers the Switch's subcommands, the
  decisions of a protocol session, and the plain data and decisions of the
  Bluetooth side (socket addresses and options, sessions, flow control,
  adapter address and class, system checks, reconnection).
- `app/` runs it: the async protocol session and transport on tokio,
  Bluetooth sockets over libc, system commands, and the floating-point
  timing and stick scaling.
- `tests/` exercises the library.
