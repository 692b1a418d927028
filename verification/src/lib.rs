//! Register-level driver logic for the RP235x microcontrollers: what the
//! GPIO, ADC, PWM, reset, clock and oscillator drivers write to which
//! register, in which order, and what they wait for in between.
//!
//! A driver function returns a plan, a sequence of `RegOp` steps (read-modify
//! -write, write, wait for bits, spin); a program performs the steps on the
//! hardware. `ops::run` gives the meaning of a plan on a register file, and
//! the lemmas beside each driver state what its plan leaves in the registers.
//!
//! - `regs`: register values, fields, and updates as `write`/`modify` make them.
//! - `ops`: the registers, the steps of a plan, and their meaning.
//! - `fields`: where the fields lie in the registers.
//! - `gpio`: peripheral clock, IO/pad bank resets, LED pins through SIO.
//! - `resets`: bringing the system peripherals out of reset.
//! - `adc`: analog pins, the ADC clock, conversions, windows of samples.
//! - `adc_standalone`: the ADC driver that also brings the ADC out of reset.
//! - `pwm`: slice configuration, pin routing, duty cycles.
//! - `kernel_hazard3`, `kernel_cortex_m33`: board bring-up and demonstrations.
//! - `image_def`: the image definition block for the Boot ROM.

pub mod regs;
pub mod fields;
pub mod ops;
mod pac;
pub mod gpio;
pub mod resets;
pub mod adc;
pub mod adc_standalone;
pub mod pwm;
pub mod kernel_hazard3;
pub mod kernel_cortex_m33;
pub mod image_def;
