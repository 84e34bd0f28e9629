# mpu9250

A driver for the InvenSense MPU9250 nine-axis IMU, written in Verus.

The library (`src/`) never touches the bus. Each driver operation yields the
I2C transfers to perform, in order (`bus::Transaction`); blocking callers
consult `bus::Retry` after each attempt to learn whether to wait and retry or
with which error to give up. The library's functions are proved against their
contracts:

- `bits`: bit fields of 8-bit registers and big-endian sample words, with the
  laws of reading and writing fields.
- `regs`: register addresses, the multi-byte data blocks and their decoders,
  and the bit-field accessors of every configuration register.
- `bus`: transfers, failure classes and the retry policy, with the law that a
  transfer settles within its attempt budget.
- `sensor`: the driver and the transfers of each operation, including the
  register writes that apply a configuration.
- `builder`: the configuration and the typestate builder
  (`PowerOn` → `reset` → `Normal` → `init`).

`app/` performs the transfers over `embedded-hal-async` and blocking
`embedded-hal` I2C, stops at the first transfer that fails, and only then
records an applied configuration (`Mpu9250::config_applied`) or hands on the
next builder or the driver. It also converts raw samples to physical units
(floating point).
