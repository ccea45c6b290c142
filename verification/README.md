# stm32f4xx-hal GPIO, verified

The general purpose input/output driver of an STM32F4 HAL, written in Verus.

- `src/bits.rs`: bit fields of 32-bit registers (`field`, `with_field`,
  `unchanged_outside`) and the bit-vector lemmas about them.
- `src/regs.rs`: plain-value models of the GPIO port register blocks
  (`RegisterBlock`, `GpioPorts`, found by base address), of the external
  interrupt controller (`EXTI`) and of the EXTI source selection (`SysCfg`),
  with the documented effect of the bit set/reset and pending registers.
- `src/gpio.rs`: pin types (`PX`, `PXx`, `Pin`), their modes, pin operations,
  the `ExtiPin` interrupt configuration, and the properties relating them.
- `src/gpio/gpioa.rs` … `gpiok.rs`: per-port peripheral handles, pin aliases
  and `GpioExt::split`.
- `app/lib.rs`: memory-mapped register access, the clock enable before a
  split, and the `embedded-hal` digital traits for the pins.
