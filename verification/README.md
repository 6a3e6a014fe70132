# board_firmware

Firmware logic for two STM32H723 boards (M0: ST7796 display, power latch;
M1: DAC-driven current regulator), verified with Verus.

- `src/` is the verified library: clock plan (`rcc`), MPU set-up
  (`mpu_conf`), FMC bus registers and display bring-up (`display`,
  `display::fmc`), register field writes (`reg`), the regulator set point and
  amplifier registers (`current_regulator`), the power-latch state machine
  (`power`), the heartbeat (`heartbeat`), board identity and per-board plan
  (`board`), and the plasma animation (`plasma`).
- `app/` is the embassy firmware that performs the register writes, GPIO,
  timers and tasks that the library lays out. It targets `thumbv7em-none-eabihf`;
  the board is chosen at build time with `FIRMWARE_BOARD=m0` or `FIRMWARE_BOARD=m1`.
- `tests/` run the library on the host; the register tests compare every
  register value with the `stm32-metapac` field setters.
