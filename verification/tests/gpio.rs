use stm32f4xx_hal::gpio::gpioa::{GPIOA, PA0, PA3, PA5, PAn};
use stm32f4xx_hal::gpio::gpioc::PC13;
use stm32f4xx_hal::gpio::gpiok::GPIOK;
use stm32f4xx_hal::gpio::{
    Alternate, Edge, ExtiPin, Floating, Gpio, GpioExt, Input, OpenDrain, Output, Pin, PinExt,
    PinState, PullUp, PushPull, Speed, PX, AF7,
};
use stm32f4xx_hal::regs::{GpioPorts, RegisterBlock, SysCfg, EXTI};

fn ports() -> GpioPorts {
    GpioPorts::new(RegisterBlock::new())
}

fn port_c_block(gpio: &GpioPorts) -> RegisterBlock {
    *gpio.block(0x4002_0800)
}

#[test]
fn gpio_addresses_follow_the_memory_map() {
    assert_eq!(Gpio::<0x41>::ptr(), 0x4002_0000);
    assert_eq!(Gpio::<0x42>::ptr(), 0x4002_0400);
    assert_eq!(Gpio::<0x43>::ptr(), 0x4002_0800);
    assert_eq!(Gpio::<0x48>::ptr(), 0x4002_1C00);
    assert_eq!(Gpio::<0x4b>::ptr(), 0x4002_2800);
    // A letter that names no port falls back to port A.
    assert_eq!(Gpio::<0x5a>::ptr(), 0x4002_0000);
}

#[test]
fn erased_pin_packs_port_and_pin() {
    let p: Pin<Input<Floating>> = Pin::new(10, 15);
    assert_eq!(p.pin_id(), 15);
    assert_eq!(p.port_id(), 10);
    assert_eq!(p.block(), 0x4002_2800);
    let q: Pin<Input<Floating>> = Pin::new(0, 0);
    assert_eq!(q.pin_id(), 0);
    assert_eq!(q.port_id(), 0);
    assert_eq!(q.block(), 0x4002_0000);
}

#[test]
fn downgrade_keeps_pin_and_port() {
    let pin: PC13<Output<PushPull>> = PX::new();
    assert_eq!(pin.pin_id(), 13);
    assert_eq!(pin.port_id(), 2);
    let partly = pin.downgrade();
    assert_eq!(partly.pin_id(), 13);
    assert_eq!(partly.port_id(), 2);
    let pin: PC13<Output<PushPull>> = PX::new();
    let erased = pin.downgrade2();
    assert_eq!(erased.pin_id(), 13);
    assert_eq!(erased.port_id(), 2);
    assert_eq!(erased.block(), Gpio::<0x43>::ptr());
}

#[test]
fn set_high_and_set_low_drive_only_their_pin() {
    let mut gpio = ports();
    let mut pin: PC13<Output<PushPull>> = PX::new();
    pin.set_high(&mut gpio);
    assert_eq!(port_c_block(&gpio).odr, 1 << 13);
    assert!(pin.is_set_high(&gpio));
    assert!(!pin.is_set_low(&gpio));
    assert_eq!(pin.get_state(&gpio), PinState::High);
    // other ports are untouched
    assert_eq!(gpio.block(0x4002_0000).odr, 0);
    pin.set_low(&mut gpio);
    assert_eq!(port_c_block(&gpio).odr, 0);
    assert!(pin.is_set_low(&gpio));
    assert_eq!(pin.get_state(&gpio), PinState::Low);
}

#[test]
fn set_low_keeps_other_outputs() {
    let mut initial = RegisterBlock::new();
    initial.odr = 0xffff;
    let mut gpio = GpioPorts::new(initial);
    let mut pin: PA3<Output<PushPull>> = PX::new();
    pin.set_low(&mut gpio);
    assert_eq!(gpio.block(0x4002_0000).odr, 0xfff7);
}

#[test]
fn set_state_then_get_state() {
    let mut gpio = ports();
    let mut pin: PA5<Output<PushPull>> = PX::new();
    pin.set_state(PinState::High, &mut gpio);
    assert_eq!(pin.get_state(&gpio), PinState::High);
    assert_eq!(gpio.block(0x4002_0000).odr, 0x20);
    pin.set_state(PinState::Low, &mut gpio);
    assert_eq!(pin.get_state(&gpio), PinState::Low);
    assert_eq!(gpio.block(0x4002_0000).odr, 0);
}

#[test]
fn toggle_inverts_and_twice_restores() {
    let mut initial = RegisterBlock::new();
    initial.odr = 0x8001;
    let mut gpio = GpioPorts::new(initial);
    let mut pin: PA0<Output<PushPull>> = PX::new();
    pin.toggle(&mut gpio);
    assert_eq!(gpio.block(0x4002_0000).odr, 0x8000);
    assert!(pin.is_set_low(&gpio));
    pin.toggle(&mut gpio);
    assert_eq!(gpio.block(0x4002_0000).odr, 0x8001);
    assert!(pin.is_set_high(&gpio));
}

#[test]
fn partially_erased_pin_outputs() {
    let mut gpio = ports();
    let pin: PA5<Output<PushPull>> = PX::new();
    let mut pin: PAn<Output<PushPull>> = pin.downgrade();
    pin.set_high(&mut gpio);
    assert_eq!(gpio.block(0x4002_0000).odr, 1 << 5);
    assert!(pin.is_set_high(&gpio));
    pin.toggle(&mut gpio);
    assert!(pin.is_set_low(&gpio));
    assert_eq!(pin.get_state(&gpio), PinState::Low);
    pin.set_state(PinState::High, &mut gpio);
    assert_eq!(pin.get_state(&gpio), PinState::High);
    pin.set_low(&mut gpio);
    assert_eq!(gpio.block(0x4002_0000).odr, 0);
}

#[test]
fn fully_erased_pin_outputs() {
    let mut gpio = ports();
    let pin: PC13<Output<PushPull>> = PX::new();
    let mut pin = pin.downgrade2();
    pin.set_high(&mut gpio);
    assert_eq!(port_c_block(&gpio).odr, 1 << 13);
    assert!(pin.is_set_high(&gpio));
    assert!(!pin.is_set_low(&gpio));
    pin.toggle(&mut gpio);
    assert_eq!(port_c_block(&gpio).odr, 0);
    pin.set_state(PinState::High, &mut gpio);
    assert_eq!(pin.get_state(&gpio), PinState::High);
    pin.set_low(&mut gpio);
    assert_eq!(pin.get_state(&gpio), PinState::Low);
    assert_eq!(gpio.block(0x4002_0000).odr, 0);
}

#[test]
fn inputs_read_the_input_data_register() {
    let mut initial = RegisterBlock::new();
    initial.idr = 1 << 3;
    let gpio = GpioPorts::new(initial);
    let high: PA3<Input<PullUp>> = PX::new();
    assert!(high.is_high(&gpio));
    assert!(!high.is_low(&gpio));
    let low: PA5<Input<PullUp>> = PX::new();
    assert!(low.is_low(&gpio));
    assert!(!low.is_high(&gpio));
    let od: PA3<Output<OpenDrain>> = PX::new();
    assert!(od.is_high(&gpio));
    let partly = PA3::<Input<Floating>>::new().downgrade();
    assert!(partly.is_high(&gpio));
    let erased = PA5::<Input<Floating>>::new().downgrade2();
    assert!(erased.is_low(&gpio));
    let erased_od = PA3::<Output<OpenDrain>>::new().downgrade2();
    assert!(erased_od.is_high(&gpio));
    assert!(!erased_od.is_low(&gpio));
    let partly_od = PA5::<Output<OpenDrain>>::new().downgrade();
    assert!(partly_od.is_low(&gpio));
}

#[test]
fn set_speed_writes_the_speed_field() {
    let mut initial = RegisterBlock::new();
    initial.ospeedr = 0xffff_ffff;
    let mut gpio = GpioPorts::new(initial);
    let pin: PA5<Output<PushPull>> = PX::new();
    let _pin = pin.set_speed(Speed::Medium, &mut gpio);
    // bits 10-11 hold 0b01
    assert_eq!(gpio.block(0x4002_0000).ospeedr, 0xffff_f7ff);
    let mut gpio = ports();
    let pin: PA3<Alternate<AF7>> = PX::new();
    let _pin = pin.set_speed(Speed::VeryHigh, &mut gpio);
    assert_eq!(gpio.block(0x4002_0000).ospeedr, 0b11 << 6);
    assert_eq!(Speed::Low.bits(), 0);
    assert_eq!(Speed::High.bits(), 2);
}

#[test]
fn pull_up_and_open_drain() {
    let mut gpio = ports();
    let mut pin: PA5<Output<OpenDrain>> = PX::new();
    pin.internal_pull_up(true, &mut gpio);
    assert_eq!(gpio.block(0x4002_0000).pupdr, 0b01 << 10);
    pin.internal_pull_up(false, &mut gpio);
    assert_eq!(gpio.block(0x4002_0000).pupdr, 0);
    let af: PA3<Alternate<AF7>> = PX::new();
    let af = af.internal_pull_up(true, &mut gpio);
    assert_eq!(gpio.block(0x4002_0000).pupdr, 0b01 << 6);
    let od = af.set_open_drain(&mut gpio);
    assert_eq!(gpio.block(0x4002_0000).otyper, 1 << 3);
    assert_eq!(od.pin_id(), 3);
}

#[test]
fn bsrr_set_wins_over_reset() {
    let mut b = RegisterBlock::new();
    b.odr = 0x0000_00f0;
    // set pin 0, reset pins 4 and 5, set and reset pin 7
    b.write_bsrr((1 << 0) | (1 << 20) | (1 << 21) | (1 << 23) | (1 << 7));
    assert_eq!(b.odr, 0x0000_00c1);
}

#[test]
fn exti_source_selects_the_port() {
    let mut cfg = SysCfg::new();
    cfg.exticr4 = 0xffff;
    let mut pin: PC13<Input<Floating>> = PX::new();
    pin.make_interrupt_source(&mut cfg);
    // line 13 is field 1 of EXTICR4; port C is 2
    assert_eq!(cfg.exticr4, 0xff2f);
    assert_eq!(cfg.exticr1, 0);
    let mut pin: PA3<Output<PushPull>> = PX::new();
    cfg.exticr1 = 0xffff;
    pin.make_interrupt_source(&mut cfg);
    assert_eq!(cfg.exticr1, 0x0fff);
    let mut erased: Pin<Input<Floating>> = Pin::new(7, 6);
    erased.make_interrupt_source(&mut cfg);
    assert_eq!(cfg.exticr2, 0x0700);
    let mut partly = PA0::<Input<Floating>>::new().downgrade();
    partly.make_interrupt_source(&mut cfg);
    assert_eq!(cfg.exticr1, 0x0ff0);
    let mut pin: Pin<Input<Floating>> = Pin::new(3, 9);
    pin.make_interrupt_source(&mut cfg);
    assert_eq!(cfg.exticr3, 0x0030);
}

#[test]
fn edges_select_trigger_registers() {
    let mut exti = EXTI::new();
    let mut pin: PC13<Input<Floating>> = PX::new();
    pin.trigger_on_edge(&mut exti, Edge::RISING);
    assert_eq!(exti.rtsr, 1 << 13);
    assert_eq!(exti.ftsr, 0);
    pin.trigger_on_edge(&mut exti, Edge::FALLING);
    assert_eq!(exti.rtsr, 0);
    assert_eq!(exti.ftsr, 1 << 13);
    pin.trigger_on_edge(&mut exti, Edge::RISING_FALLING);
    assert_eq!(exti.rtsr, 1 << 13);
    assert_eq!(exti.ftsr, 1 << 13);
}

#[test]
fn interrupt_mask_and_pending_bit() {
    let mut exti = EXTI::new();
    exti.imr = 0x1;
    let mut pin: PA5<Input<Floating>> = PX::new();
    pin.enable_interrupt(&mut exti);
    assert_eq!(exti.imr, 0x21);
    pin.disable_interrupt(&mut exti);
    assert_eq!(exti.imr, 0x1);
    exti.pr = 0x21;
    assert!(pin.check_interrupt(&exti));
    pin.clear_interrupt_pending_bit(&mut exti);
    assert_eq!(exti.pr, 0x1);
    assert!(!pin.check_interrupt(&exti));
    exti.write_pr(0xffff_ffff);
    assert_eq!(exti.pr, 0);
}

#[test]
fn split_hands_out_every_pin() {
    let parts = GPIOA.split();
    assert_eq!(parts.pa0.pin_id(), 0);
    assert_eq!(parts.pa15.pin_id(), 15);
    assert_eq!(parts.pa15.port_id(), 0);
    let parts = GPIOK.split();
    assert_eq!(parts.pk7.pin_id(), 7);
    assert_eq!(parts.pk7.port_id(), 10);
}

#[test]
fn set_block_replaces_one_port() {
    let mut gpio = ports();
    let mut b = RegisterBlock::new();
    b.moder = 0x1234;
    gpio.set_block(0x4002_0400, b);
    assert_eq!(gpio.block(0x4002_0400).moder, 0x1234);
    assert_eq!(gpio.block(0x4002_0000).moder, 0);
    assert_eq!(gpio.blocks[1].moder, 0x1234);
}
