# stm32l4_drivers

Bare-metal drivers for the STM32L476, split in two parts.

- `src/` is the library, verified with Verus: every decision the drivers
  make between register accesses (which flash command comes next and what
  bytes it sends, when a state machine advances, how the light sensor
  readings become a PWM duty cycle, how button presses select a blink speed,
  when a received UART frame is echoed) stands there with its contract, and
  the properties that span several steps are stated as proof functions.
- `app/` is the firmware: clock, GPIO, DMA, timer and NVIC configuration
  through the `stm32l4` peripheral access crate, the interrupt handlers, and
  the main loops. It keeps the library state in critical-section mutexes,
  reads the hardware flags, hands them to the library and performs the
  register writes the library asks for.
- `tests/` runs the library on concrete values.
