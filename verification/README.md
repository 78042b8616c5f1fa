# pimoroni-pico-explorer

Board logic for the Pimoroni Pico Explorer base (RP2040), verified with Verus.

- `src/` — the verified library: which pin answers for each switch and how its
  level reads as pressed (`buttons`), the scaling of ADC samples to a fraction
  of full scale (`adc`), the rounding of nanosecond delays to microseconds
  (`delay`), and the display and SPI bus settings (`display`).
- `app/` — the hardware side: pin bring-up, the display driver, pin and ADC
  reads, and the float conversion of ADC readings; it calls the library for
  every decision.
- `tests/` — tests of the library on concrete values.
