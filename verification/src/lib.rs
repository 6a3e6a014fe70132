//! Verified logic of a two-board STM32H7 firmware: clock tree, memory
//! protection, display controller and FMC bus set-up, power latch, heartbeat,
//! current-regulator set point and the plasma animation.

pub mod reg;
pub mod current_regulator;
pub mod power;
pub mod plasma;
pub mod display;
pub mod board;
pub mod mpu_conf;
pub mod rcc;
pub mod heartbeat;
