//! Control core of a motorized cooking appliance.
//!
//! The library holds the verified logic of the controller: the quadrature
//! decoder for the two dials, the sensor-fusion readers with their fault
//! predicates, the five-state oven machine with its heater duty cycle, the
//! per-tick orchestration, and the debounce decisions of the interrupt layer.
//! All physical I/O (pins, SPI, ADC, the LCD bus, timers) stays outside; the
//! library exchanges plain values with that layer and records commanded
//! outputs in its own types.

pub mod buzzer;
pub mod control;
pub mod current_sensor;
pub mod display;
pub mod encoder;
pub mod manager;
pub mod ring;
pub mod state;
pub mod temp_sensor;
