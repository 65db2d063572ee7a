# ull_drivers

Drivers for the Sensirion SHT3x-DIS humidity and temperature sensor and the
SSD1306 OLED display controller, written in Verus and proved against their
contracts.

The drivers never touch a bus themselves. Each operation comes in two halves:
a method ending in `_exchange` plans the exact bus steps (I2C writes and
reads, delays, reset-pin levels) as a `bus::Exchange`, the caller performs the
steps on its hardware and reports each outcome, and the method of the same
name without the suffix turns the finished exchange into the result and the
driver's next state.

Layout:

- `src/bus.rs`: bus steps and the `Exchange` that tracks how far a plan got.
- `src/sht3x/`: sensor commands, CRC-8 checking, raw and fixed-point
  readings, status bits, and the single-shot, periodic and ART modes.
- `src/ssd1306/`: panel sizes, typed values, command sequences and I2C
  framing, the framebuffer, and the scroll states.
- `tests/`: scenarios run against mock buses.
- `app/`: the `embedded-hal` (blocking and async) front end that performs the
  exchanges, floating-point readings, `Display` error types, the
  `embedded-graphics` draw target and `serde` value types.

The properties proved beyond the functions' own contracts are public proof
functions: checksummed answers decode to the words they carry, fixed-point
conversions stay in range and are monotonic, a written pixel reads back while
every other pixel stays, reconfiguring never touches the framebuffer, the
16-byte write chunks reassemble the stream, a partial flush covers every
panel pixel of its rectangle, and every planned write and read goes to the
driver's own address (the sensor's general-call reset alone goes to `0x00`).
