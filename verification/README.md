# rp235x-sys

Register-level drivers for the RP2350 (GPIO, ADC, PWM, resets, clocks,
crystal oscillator, system PLL), with their behaviour proved in Verus.

Each driver function returns a plan: the register reads-modifies-writes,
writes, waits and spins that it performs, in order. The values written are
computed as the `rp235x-pac` crate's `write`, `write_with_zero` and `modify`
compute them, from the reset values and modify bitmaps that the crate
declares. `ops::run` gives a plan's meaning on a register file that holds
the word software last wrote to each register (write-one-to-clear,
self-clearing, hardware-set and code-guarded fields read back differently;
`ops::step` lists them), and the lemmas beside each driver state the words
that the plan writes (for
instance: `resets_sys` releases exactly PADS_BANK0, IO_BANK0, PWM and ADC;
after `pwm_set_default_config` the greatest duty of the slice is 0xffff;
`pll_init` makes 150 MHz of a 12 MHz crystal).

- `src/`: the verified library.
- `tests/`: plans checked against concrete register values.
- `app/`: the programs (kernel bring-up on either core type, two tasks) that
  perform the plans through `rp235x-pac`.
