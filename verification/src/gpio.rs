//! General Purpose Input / Output
//!
//! Pins are zero-sized handles (`PX`), handles with the pin number erased
//! (`PXx`) or with pin and port erased (`Pin`). Their operations read and write
//! the registers of the port they belong to, held in a [`GpioPorts`] value, and
//! the external interrupt registers, held in [`EXTI`] and [`SysCfg`] values.
use core::marker::PhantomData;
use crate::bits::{
    field, unchanged_outside, with_field, lemma_with_field, lemma_with_bit, lemma_bit_test,
    lemma_set_bit, lemma_clear_bit, lemma_disjoint_field, lemma_distinct_bits,
    lemma_field_ext,
};
use crate::regs::{
    RegisterBlock, GpioPorts, EXTI, SysCfg, GPIOA_BASE, GPIO_REGISTER_OFFSET, NUM_PORTS,
    port_address, is_port_address, port_of_address, lemma_port_address, odr_after_bsrr,
    bsrr_set_word, bsrr_reset_word, lemma_bsrr_set, lemma_bsrr_reset, lemma_with_exti_source,
};
use vstd::prelude::*;

mod sealed;
pub mod gpioa;
pub mod gpiob;
pub mod gpioc;
pub mod gpiod;
pub mod gpioe;
pub mod gpiof;
pub mod gpiog;
pub mod gpioh;
pub mod gpioi;
pub mod gpioj;
pub mod gpiok;

use sealed::Interruptable;

verus! {

/// Extension trait to split a GPIO peripheral in independent pins and registers
pub trait GpioExt {
    /// The parts to split the GPIO into
    type Parts;

    /// Splits the GPIO block into independent pins and registers
    fn split(self) -> Self::Parts;
}

pub trait PinExt {
    type Mode;

    /// The pin number, as `pin_id` returns it.
    spec fn pin_id_spec(&self) -> u8;

    /// The port number (0 for port A), as `port_id` returns it.
    spec fn port_id_spec(&self) -> u8;

    /// Return pin number
    fn pin_id(&self) -> (r: u8)
        ensures
            r == self.pin_id_spec(),
            r < 16,
    ;

    /// Return port number
    fn port_id(&self) -> (r: u8)
        ensures
            r == self.port_id_spec(),
            r < NUM_PORTS,
    ;
}

/// Some alternate mode (type state)
pub struct Alternate<const A: u8>;

/// Some alternate mode in open drain configuration (type state)
pub struct AlternateOD<const A: u8>;

// Compatibility constants
pub const AF0: u8 = 0;
pub const AF1: u8 = 1;
pub const AF2: u8 = 2;
pub const AF3: u8 = 3;
pub const AF4: u8 = 4;
pub const AF5: u8 = 5;
pub const AF6: u8 = 6;
pub const AF7: u8 = 7;
pub const AF8: u8 = 8;
pub const AF9: u8 = 9;
pub const AF10: u8 = 10;
pub const AF11: u8 = 11;
pub const AF12: u8 = 12;
pub const AF13: u8 = 13;
pub const AF14: u8 = 14;
pub const AF15: u8 = 15;

/// Input mode (type state)
pub struct Input<MODE> {
    _mode: PhantomData<MODE>,
}

/// Floating input (type state)
pub struct Floating;

/// Pulled down input (type state)
pub struct PullDown;

/// Pulled up input (type state)
pub struct PullUp;

/// Open drain input or output (type state)
pub struct OpenDrain;

/// Output mode (type state)
pub struct Output<MODE> {
    _mode: PhantomData<MODE>,
}

/// Push pull output (type state)
pub struct PushPull;

/// Analog mode (type state)
pub struct Analog;

/// Digital output pin state
#[derive(Debug, PartialEq, Eq, Structural, Clone, Copy)]
pub enum PinState {
    /// Low pin state
    Low,
    /// High pin state
    High,
}

/// GPIO Pin speed selection
#[derive(Debug, PartialEq, Eq, Structural, Clone, Copy)]
pub enum Speed {
    Low,
    Medium,
    High,
    VeryHigh,
}

/// The two-bit code of a speed in the output speed register.
pub open spec fn speed_code(speed: Speed) -> u32 {
    match speed {
        Speed::Low => 0,
        Speed::Medium => 1,
        Speed::High => 2,
        Speed::VeryHigh => 3,
    }
}

impl Speed {
    /// The two-bit code of this speed in the output speed register.
    pub fn bits(self) -> (r: u32)
        ensures
            r == speed_code(self),
    {
        match self {
            Speed::Low => 0,
            Speed::Medium => 1,
            Speed::High => 2,
            Speed::VeryHigh => 3,
        }
    }
}

#[allow(non_camel_case_types)]
#[derive(Debug, PartialEq, Eq, Structural, Clone, Copy)]
pub enum Edge {
    RISING,
    FALLING,
    RISING_FALLING,
}

impl<MODE> Interruptable for Output<MODE> {}

impl<MODE> Interruptable for Input<MODE> {}

/// EXTI lines that an edge triggers on: rising edges.
pub open spec fn rises(edge: Edge) -> bool {
    edge == Edge::RISING || edge == Edge::RISING_FALLING
}

/// EXTI lines that an edge triggers on: falling edges.
pub open spec fn falls(edge: Edge) -> bool {
    edge == Edge::FALLING || edge == Edge::RISING_FALLING
}

/// `1` when `b`, `0` otherwise: the value of a single-bit field.
pub open spec fn bit_value(b: bool) -> u32 {
    if b {
        1
    } else {
        0
    }
}

/// External Interrupt Pin
pub trait ExtiPin: PinExt + Sized {
    /// Make corresponding EXTI line sensitive to this pin
    #[inline(always)]
    fn make_interrupt_source(&mut self, syscfg: &mut SysCfg)
        ensures
            *final(self) == *old(self),
            *final(syscfg) == old(syscfg).with_exti_source(
                old(self).pin_id_spec() as int,
                old(self).port_id_spec() as u32,
            ),
            final(syscfg).exti_source(old(self).pin_id_spec() as int)
                == old(self).port_id_spec(),
            forall|line: int|
                0 <= line < 16 && line != old(self).pin_id_spec() ==> #[trigger] final(syscfg).exti_source(line)
                    == old(syscfg).exti_source(line),
    {
        let i = self.pin_id();
        let port = self.port_id() as u32;
        let offset: u8 = 4 * (i % 4);
        proof {
            lemma_with_exti_source(*old(syscfg), i as int, port);
        }
        if i < 4 {
            syscfg.exticr1 = (syscfg.exticr1 & !(0xfu32 << offset)) | (port << offset);
        } else if i < 8 {
            syscfg.exticr2 = (syscfg.exticr2 & !(0xfu32 << offset)) | (port << offset);
        } else if i < 12 {
            syscfg.exticr3 = (syscfg.exticr3 & !(0xfu32 << offset)) | (port << offset);
        } else {
            syscfg.exticr4 = (syscfg.exticr4 & !(0xfu32 << offset)) | (port << offset);
        }
    }

    /// Generate interrupt on rising edge, falling edge or both
    #[inline(always)]
    fn trigger_on_edge(&mut self, exti: &mut EXTI, edge: Edge)
        ensures
            *final(self) == *old(self),
            *final(exti) == (EXTI {
                rtsr: with_field(
                    old(exti).rtsr,
                    old(self).pin_id_spec() as u32,
                    1,
                    bit_value(rises(edge)),
                ),
                ftsr: with_field(
                    old(exti).ftsr,
                    old(self).pin_id_spec() as u32,
                    1,
                    bit_value(falls(edge)),
                ),
                ..*old(exti)
            }),
            field(final(exti).rtsr, old(self).pin_id_spec() as u32, 1) == bit_value(rises(edge)),
            field(final(exti).ftsr, old(self).pin_id_spec() as u32, 1) == bit_value(falls(edge)),
            unchanged_outside(final(exti).rtsr, old(exti).rtsr, old(self).pin_id_spec() as u32, 1),
            unchanged_outside(final(exti).ftsr, old(exti).ftsr, old(self).pin_id_spec() as u32, 1),
    {
        let i = self.pin_id();
        proof {
            lemma_with_bit(exti.rtsr, i as u32, bit_value(rises(edge)));
            lemma_with_bit(exti.ftsr, i as u32, bit_value(falls(edge)));
            lemma_set_bit(exti.rtsr, i as u32);
            lemma_clear_bit(exti.rtsr, i as u32);
            lemma_set_bit(exti.ftsr, i as u32);
            lemma_clear_bit(exti.ftsr, i as u32);
        }
        match edge {
            Edge::RISING => {
                exti.rtsr = exti.rtsr | (1u32 << i);
                exti.ftsr = exti.ftsr & !(1u32 << i);
            },
            Edge::FALLING => {
                exti.ftsr = exti.ftsr | (1u32 << i);
                exti.rtsr = exti.rtsr & !(1u32 << i);
            },
            Edge::RISING_FALLING => {
                exti.rtsr = exti.rtsr | (1u32 << i);
                exti.ftsr = exti.ftsr | (1u32 << i);
            },
        }
    }

    /// Enable external interrupts from this pin.
    #[inline(always)]
    fn enable_interrupt(&mut self, exti: &mut EXTI)
        ensures
            *final(self) == *old(self),
            *final(exti) == (EXTI {
                imr: with_field(old(exti).imr, old(self).pin_id_spec() as u32, 1, 1),
                ..*old(exti)
            }),
            field(final(exti).imr, old(self).pin_id_spec() as u32, 1) == 1,
            unchanged_outside(final(exti).imr, old(exti).imr, old(self).pin_id_spec() as u32, 1),
    {
        let i = self.pin_id();
        proof {
            lemma_with_bit(exti.imr, i as u32, 1);
            lemma_set_bit(exti.imr, i as u32);
        }
        exti.imr = exti.imr | (1u32 << i);
    }

    /// Disable external interrupts from this pin
    #[inline(always)]
    fn disable_interrupt(&mut self, exti: &mut EXTI)
        ensures
            *final(self) == *old(self),
            *final(exti) == (EXTI {
                imr: with_field(old(exti).imr, old(self).pin_id_spec() as u32, 1, 0),
                ..*old(exti)
            }),
            field(final(exti).imr, old(self).pin_id_spec() as u32, 1) == 0,
            unchanged_outside(final(exti).imr, old(exti).imr, old(self).pin_id_spec() as u32, 1),
    {
        let i = self.pin_id();
        proof {
            lemma_with_bit(exti.imr, i as u32, 0);
            lemma_clear_bit(exti.imr, i as u32);
        }
        exti.imr = exti.imr & !(1u32 << i);
    }

    /// Clear the interrupt pending bit for this pin
    #[inline(always)]
    fn clear_interrupt_pending_bit(&mut self, exti: &mut EXTI)
        ensures
            *final(self) == *old(self),
            *final(exti) == (EXTI {
                pr: with_field(old(exti).pr, old(self).pin_id_spec() as u32, 1, 0),
                ..*old(exti)
            }),
            field(final(exti).pr, old(self).pin_id_spec() as u32, 1) == 0,
            unchanged_outside(final(exti).pr, old(exti).pr, old(self).pin_id_spec() as u32, 1),
    {
        let i = self.pin_id();
        proof {
            lemma_with_bit(exti.pr, i as u32, 0);
            lemma_clear_bit(exti.pr, i as u32);
        }
        exti.write_pr(1u32 << i);
    }

    /// Reads the interrupt pending bit for this pin
    #[inline(always)]
    fn check_interrupt(&self, exti: &EXTI) -> (r: bool)
        ensures
            r == (field(exti.pr, self.pin_id_spec() as u32, 1) == 1),
    {
        let i = self.pin_id();
        proof {
            lemma_bit_test(exti.pr, i as u32);
        }
        (exti.pr & (1u32 << i)) != 0
    }
}

impl<PIN> ExtiPin for PIN where PIN: PinExt, PIN::Mode: Interruptable {

}

// ---------------------------------------------------------------------------
// What the pin operations read and write, in terms of the register models.

/// The output data bit of pin `pin` is set in block `b`.
pub open spec fn output_high(b: RegisterBlock, pin: u8) -> bool {
    field(b.odr, pin as u32, 1) == 1
}

/// The input data bit of pin `pin` is set in block `b`.
pub open spec fn input_high(b: RegisterBlock, pin: u8) -> bool {
    field(b.idr, pin as u32, 1) == 1
}

/// The state that the output data register of `b` drives on pin `pin`.
pub open spec fn output_state(b: RegisterBlock, pin: u8) -> PinState {
    if output_high(b, pin) {
        PinState::High
    } else {
        PinState::Low
    }
}

/// The bit set/reset word that drives pin `pin` to `state`.
pub open spec fn state_word(state: PinState, pin: u8) -> u32 {
    match state {
        PinState::Low => bsrr_reset_word(pin as u32),
        PinState::High => bsrr_set_word(pin as u32),
    }
}

/// The bit set/reset word that a toggle of pin `pin` of block `b` writes.
pub open spec fn toggle_word(b: RegisterBlock, pin: u8) -> u32 {
    if output_high(b, pin) {
        bsrr_reset_word(pin as u32)
    } else {
        bsrr_set_word(pin as u32)
    }
}

/// The ports after `value` is written to the bit set/reset register of port `port`.
pub open spec fn ports_after_bsrr(gpio: Seq<RegisterBlock>, port: int, value: u32) -> Seq<
    RegisterBlock,
> {
    gpio.update(port, gpio[port].after_bsrr(value))
}

/// The bit set/reset word that drives a pin to a state writes that state into the
/// pin's output bit and leaves every other bit of the output data register.
pub proof fn lemma_state_word(odr: u32, pin: u8, state: PinState)
    requires
        pin < 16,
    ensures
        odr_after_bsrr(odr, state_word(state, pin)) == with_field(
            odr,
            pin as u32,
            1,
            bit_value(state == PinState::High),
        ),
{
    match state {
        PinState::Low => lemma_bsrr_reset(odr, pin as u32),
        PinState::High => lemma_bsrr_set(odr, pin as u32),
    }
}

/// Only the output bit of `pin` of port `port` may differ between `before` and
/// `after`: every other port, every other register of the port, and every other
/// output bit are equal.
pub open spec fn only_output_of(
    before: Seq<RegisterBlock>,
    after: Seq<RegisterBlock>,
    port: int,
    pin: u8,
) -> bool {
    &&& after.len() == before.len()
    &&& forall|k: int| 0 <= k < before.len() && k != port ==> after[k] == before[k]
    &&& after[port] == RegisterBlock { odr: after[port].odr, ..before[port] }
    &&& forall|q: u8| q < 16 && q != pin ==> output_high(after[port], q) == output_high(before[port], q)
}

/// A pin driven to a state reads that state back, and the write changes the
/// output of no other pin of any port.
pub proof fn lemma_set_state_then_get_state(
    gpio: Seq<RegisterBlock>,
    port: int,
    pin: u8,
    state: PinState,
)
    requires
        0 <= port < gpio.len(),
        pin < 16,
    ensures
        output_state(ports_after_bsrr(gpio, port, state_word(state, pin))[port], pin) == state,
        only_output_of(gpio, ports_after_bsrr(gpio, port, state_word(state, pin)), port, pin),
{
    let odr = gpio[port].odr;
    let v = bit_value(state == PinState::High);
    let after = ports_after_bsrr(gpio, port, state_word(state, pin));
    lemma_state_word(odr, pin, state);
    lemma_with_bit(odr, pin as u32, v);
    assert forall|q: u8| q < 16 && q != pin implies output_high(after[port], q) == output_high(
        gpio[port],
        q,
    ) by {
        lemma_distinct_bits(pin as u32, q as u32);
        lemma_disjoint_field(after[port].odr, odr, pin as u32, 1, q as u32, 1);
    }
}

/// Toggling a pin inverts its output and changes the output of no other pin.
pub proof fn lemma_toggle_inverts(gpio: Seq<RegisterBlock>, port: int, pin: u8)
    requires
        0 <= port < gpio.len(),
        pin < 16,
    ensures
        output_high(ports_after_bsrr(gpio, port, toggle_word(gpio[port], pin))[port], pin)
            == !output_high(gpio[port], pin),
        only_output_of(gpio, ports_after_bsrr(gpio, port, toggle_word(gpio[port], pin)), port, pin),
{
    let state = if output_high(gpio[port], pin) {
        PinState::Low
    } else {
        PinState::High
    };
    assert(toggle_word(gpio[port], pin) == state_word(state, pin));
    lemma_set_state_then_get_state(gpio, port, pin, state);
}

/// Toggling a pin twice leaves every register of every port as it was.
pub proof fn lemma_toggle_twice(gpio: Seq<RegisterBlock>, port: int, pin: u8)
    requires
        0 <= port < gpio.len(),
        pin < 16,
    ensures
        ({
            let once = ports_after_bsrr(gpio, port, toggle_word(gpio[port], pin));
            ports_after_bsrr(once, port, toggle_word(once[port], pin))
        }) == gpio,
{
    let once = ports_after_bsrr(gpio, port, toggle_word(gpio[port], pin));
    let twice = ports_after_bsrr(once, port, toggle_word(once[port], pin));
    lemma_toggle_inverts(gpio, port, pin);
    lemma_toggle_inverts(once, port, pin);
    lemma_bit_test(gpio[port].odr, pin as u32);
    lemma_bit_test(twice[port].odr, pin as u32);
    let s1 = if output_high(gpio[port], pin) { PinState::Low } else { PinState::High };
    let s2 = if output_high(once[port], pin) { PinState::Low } else { PinState::High };
    lemma_state_word(gpio[port].odr, pin, s1);
    lemma_state_word(once[port].odr, pin, s2);
    lemma_with_bit(gpio[port].odr, pin as u32, bit_value(s1 == PinState::High));
    lemma_with_bit(once[port].odr, pin as u32, bit_value(s2 == PinState::High));
    let a = twice[port].odr;
    let b = once[port].odr;
    let c = gpio[port].odr;
    let i = pin as u32;
    assert(unchanged_outside(a, c, i, 1)) by (bit_vector)
        requires
            unchanged_outside(a, b, i, 1),
            unchanged_outside(b, c, i, 1),
    ;
    lemma_field_ext(twice[port].odr, gpio[port].odr, pin as u32, 1);
    assert(twice[port] == gpio[port]);
    assert(twice =~= gpio);
}

/// Writes `value` to the bit set/reset register of the port at `addr`.
fn write_bsrr_at(gpio: &mut GpioPorts, addr: usize, value: u32)
    requires
        is_port_address(addr),
    ensures
        final(gpio)@ == ports_after_bsrr(old(gpio)@, port_of_address(addr), value),
{
    let mut b = *gpio.block(addr);
    b.write_bsrr(value);
    gpio.set_block(addr, b);
}

/// Reads whether the output data bit of pin `pin` of the port at `addr` is clear.
fn odr_bit_clear_at(gpio: &GpioPorts, addr: usize, pin: u8) -> (r: bool)
    requires
        is_port_address(addr),
        pin < 16,
    ensures
        r == !output_high(gpio@[port_of_address(addr)], pin),
{
    let odr = gpio.block(addr).odr;
    proof {
        lemma_bit_test(odr, pin as u32);
    }
    odr & (1u32 << pin) == 0
}

/// Reads whether the input data bit of pin `pin` of the port at `addr` is clear.
fn idr_bit_clear_at(gpio: &GpioPorts, addr: usize, pin: u8) -> (r: bool)
    requires
        is_port_address(addr),
        pin < 16,
    ensures
        r == !input_high(gpio@[port_of_address(addr)], pin),
{
    let idr = gpio.block(addr).idr;
    proof {
        lemma_bit_test(idr, pin as u32);
    }
    idr & (1u32 << pin) == 0
}

/// The register block of port `P` ('A' to 'K', as an ASCII code).
pub struct Gpio<const P: u8>;

impl<const P: u8> Gpio<P> {
    /// Base address of the register block of port `P`; that of port A for a
    /// letter that names no port.
    pub open spec fn ptr_spec() -> int {
        if 0x41 <= P <= 0x4b {
            port_address(P - 0x41)
        } else {
            GPIOA_BASE as int
        }
    }

    /// Base address of the register block of port `P`; that of port A for a
    /// letter that names no port.
    pub fn ptr() -> (r: usize)
        ensures
            r == Self::ptr_spec(),
            is_port_address(r),
            0x41 <= P <= 0x4b ==> r == 0x4002_0000 + 0x400 * (P - 0x41),
            !(0x41 <= P <= 0x4b) ==> r == 0x4002_0000,
    {
        // The arms are the ASCII codes of the port letters 'A' to 'K'.
        let r: usize = match P {
            0x41 => 0x4002_0000,
            0x42 => 0x4002_0400,
            0x43 => 0x4002_0800,
            0x44 => 0x4002_0C00,
            0x45 => 0x4002_1000,
            0x46 => 0x4002_1400,
            0x47 => 0x4002_1800,
            0x48 => 0x4002_1C00,
            0x49 => 0x4002_2000,
            0x4a => 0x4002_2400,
            0x4b => 0x4002_2800,
            _ => GPIOA_BASE,
        };
        proof {
            if 0x41 <= P <= 0x4b {
                lemma_port_address(P - 0x41);
            } else {
                lemma_port_address(0);
            }
        }
        r
    }
}

/// The ports after the register block of port `port` is replaced by `b`.
pub open spec fn ports_with(gpio: Seq<RegisterBlock>, port: int, b: RegisterBlock) -> Seq<
    RegisterBlock,
> {
    gpio.update(port, b)
}

/// The code of the pull-up / pull-down field: pull-up when `on`, none otherwise.
pub open spec fn pull_up_code(on: bool) -> u32 {
    if on {
        1
    } else {
        0
    }
}

/// Writes `speed` into the output speed field of pin `pin` of the port at `addr`.
fn write_speed_at(gpio: &mut GpioPorts, addr: usize, pin: u8, speed: Speed)
    requires
        is_port_address(addr),
        pin < 16,
    ensures
        final(gpio)@ == ports_with(
            old(gpio)@,
            port_of_address(addr),
            RegisterBlock {
                ospeedr: with_field(
                    old(gpio)@[port_of_address(addr)].ospeedr,
                    (2 * pin) as u32,
                    3,
                    speed_code(speed),
                ),
                ..old(gpio)@[port_of_address(addr)]
            },
        ),
        field(final(gpio)@[port_of_address(addr)].ospeedr, (2 * pin) as u32, 3) == speed_code(
            speed,
        ),
        unchanged_outside(
            final(gpio)@[port_of_address(addr)].ospeedr,
            old(gpio)@[port_of_address(addr)].ospeedr,
            (2 * pin) as u32,
            3,
        ),
{
    proof {
        lemma_with_field(gpio@[port_of_address(addr)].ospeedr, (2 * pin) as u32, 3, speed_code(speed));
    }
    let offset: u8 = 2 * pin;
    let mut b = *gpio.block(addr);
    b.ospeedr = (b.ospeedr & !(0b11u32 << offset)) | (speed.bits() << offset);
    gpio.set_block(addr, b);
}

/// Writes the pull-up code for `on` into the pull field of pin `pin` of the port at `addr`.
fn write_pull_up_at(gpio: &mut GpioPorts, addr: usize, pin: u8, on: bool)
    requires
        is_port_address(addr),
        pin < 16,
    ensures
        final(gpio)@ == ports_with(
            old(gpio)@,
            port_of_address(addr),
            RegisterBlock {
                pupdr: with_field(
                    old(gpio)@[port_of_address(addr)].pupdr,
                    (2 * pin) as u32,
                    3,
                    pull_up_code(on),
                ),
                ..old(gpio)@[port_of_address(addr)]
            },
        ),
        field(final(gpio)@[port_of_address(addr)].pupdr, (2 * pin) as u32, 3) == pull_up_code(on),
        unchanged_outside(
            final(gpio)@[port_of_address(addr)].pupdr,
            old(gpio)@[port_of_address(addr)].pupdr,
            (2 * pin) as u32,
            3,
        ),
{
    proof {
        lemma_with_field(gpio@[port_of_address(addr)].pupdr, (2 * pin) as u32, 3, pull_up_code(on));
    }
    let offset: u8 = 2 * pin;
    let value: u32 = if on {
        0b01
    } else {
        0b00
    };
    let mut b = *gpio.block(addr);
    b.pupdr = (b.pupdr & !(0b11u32 << offset)) | (value << offset);
    gpio.set_block(addr, b);
}

/// The alternate-function register of `b` that holds the field of pin `pin`:
/// AFRL for pins 0 to 7, AFRH for pins 8 to 15.
pub open spec fn afr_of(b: RegisterBlock, pin: u8) -> u32 {
    if pin < 8 {
        b.afrl
    } else {
        b.afrh
    }
}

/// Offset of the alternate-function field of pin `pin` within its register.
pub open spec fn afr_offset(pin: u8) -> u32 {
    if pin < 8 {
        (4 * pin) as u32
    } else {
        (4 * pin - 32) as u32
    }
}

/// Block `b` after pin `pin` is switched to alternate function `af`: the
/// function is written into the pin's alternate-function field and the pin's
/// mode field is set to alternate (`0b10`).
pub open spec fn with_alternate(b: RegisterBlock, pin: u8, af: u8) -> RegisterBlock {
    let afr = with_field(afr_of(b, pin), afr_offset(pin), 15, af as u32);
    RegisterBlock {
        afrl: if pin < 8 {
            afr
        } else {
            b.afrl
        },
        afrh: if pin < 8 {
            b.afrh
        } else {
            afr
        },
        moder: with_field(b.moder, (2 * pin) as u32, 3, 2),
        ..b
    }
}

#[allow(dead_code)]
fn _set_alternate_mode<const P: u8, const N: u8, const A: u8>(gpio: &mut GpioPorts)
    requires
        N < 16,
    ensures
        final(gpio)@ == ports_with(
            old(gpio)@,
            port_of_address(Gpio::<P>::ptr_spec() as usize),
            with_alternate(old(gpio)@[port_of_address(Gpio::<P>::ptr_spec() as usize)], N, A),
        ),
        A < 16 ==> field(
            afr_of(final(gpio)@[port_of_address(Gpio::<P>::ptr_spec() as usize)], N),
            afr_offset(N),
            15,
        ) == A,
        A < 16 ==> unchanged_outside(
            afr_of(final(gpio)@[port_of_address(Gpio::<P>::ptr_spec() as usize)], N),
            afr_of(old(gpio)@[port_of_address(Gpio::<P>::ptr_spec() as usize)], N),
            afr_offset(N),
            15,
        ),
        field(final(gpio)@[port_of_address(Gpio::<P>::ptr_spec() as usize)].moder, (2 * N) as u32, 3)
            == 2,
        unchanged_outside(
            final(gpio)@[port_of_address(Gpio::<P>::ptr_spec() as usize)].moder,
            old(gpio)@[port_of_address(Gpio::<P>::ptr_spec() as usize)].moder,
            (2 * N) as u32,
            3,
        ),
{
    let offset: u8 = 2 * N;
    let offset2: u8 = 4 * N;
    let mode = A as u32;
    let addr = Gpio::<P>::ptr();
    proof {
        if 0x41 <= P <= 0x4b {
            lemma_port_address(P - 0x41);
        } else {
            lemma_port_address(0);
        }
    }
    let mut b = *gpio.block(addr);
    proof {
        lemma_with_field(b.moder, (2 * N) as u32, 3, 2);
        if A < 16 {
            lemma_with_field(afr_of(b, N), afr_offset(N), 15, A as u32);
        }
    }
    if offset2 < 32 {
        b.afrl = (b.afrl & !(0b1111u32 << offset2)) | (mode << offset2);
    } else {
        let offset2 = offset2 - 32;
        b.afrh = (b.afrh & !(0b1111u32 << offset2)) | (mode << offset2);
    }
    b.moder = (b.moder & !(0b11u32 << offset)) | (0b10u32 << offset);
    gpio.set_block(addr, b);
}

/// Pin
pub struct PX<MODE, const P: u8, const N: u8> {
    _mode: PhantomData<MODE>,
}

impl<MODE, const P: u8, const N: u8> PX<MODE, P, N> {
    /// A pin is one of pins 0 to 15 of one of ports 'A' to 'K'.
    #[verifier::type_invariant]
    spec fn valid(self) -> bool {
        &&& N < 16
        &&& 0x41 <= P <= 0x4b
    }

    /// The pin handle of pin `N` of port `P`.
    pub fn new() -> (r: Self)
        requires
            N < 16,
            0x41 <= P <= 0x4b,
    {
        Self { _mode: PhantomData }
    }
}

impl<MODE, const P: u8, const N: u8> PinExt for PX<MODE, P, N> {
    type Mode = MODE;

    open spec fn pin_id_spec(&self) -> u8 {
        N
    }

    open spec fn port_id_spec(&self) -> u8 {
        (P - 0x41) as u8
    }

    #[inline(always)]
    fn pin_id(&self) -> (r: u8) {
        proof {
            use_type_invariant(self);
        }
        N
    }

    #[inline(always)]
    fn port_id(&self) -> (r: u8) {
        proof {
            use_type_invariant(self);
        }
        P - 0x41
    }
}

impl<MODE, const P: u8, const N: u8> PX<Output<MODE>, P, N> {
    /// Set pin speed
    pub fn set_speed(self, speed: Speed, gpio: &mut GpioPorts) -> (r: Self)
        ensures
            r == self,
            final(gpio)@ == ports_with(
                old(gpio)@,
                P - 0x41,
                RegisterBlock {
                    ospeedr: with_field(
                        old(gpio)@[P - 0x41].ospeedr,
                        (2 * N) as u32,
                        3,
                        speed_code(speed),
                    ),
                    ..old(gpio)@[P - 0x41]
                },
            ),
            field(final(gpio)@[P - 0x41].ospeedr, (2 * N) as u32, 3) == speed_code(speed),
            unchanged_outside(
                final(gpio)@[P - 0x41].ospeedr,
                old(gpio)@[P - 0x41].ospeedr,
                (2 * N) as u32,
                3,
            ),
    {
        proof {
            use_type_invariant(&self);
        }
        write_speed_at(gpio, Gpio::<P>::ptr(), N, speed);
        proof {
            lemma_port_address(P - 0x41);
        }
        self
    }
}

impl<const P: u8, const N: u8> PX<Output<OpenDrain>, P, N> {
    /// Enables / disables the internal pull up
    pub fn internal_pull_up(&mut self, on: bool, gpio: &mut GpioPorts)
        ensures
            *final(self) == *old(self),
            final(gpio)@ == ports_with(
                old(gpio)@,
                P - 0x41,
                RegisterBlock {
                    pupdr: with_field(
                        old(gpio)@[P - 0x41].pupdr,
                        (2 * N) as u32,
                        3,
                        pull_up_code(on),
                    ),
                    ..old(gpio)@[P - 0x41]
                },
            ),
            field(final(gpio)@[P - 0x41].pupdr, (2 * N) as u32, 3) == pull_up_code(on),
            unchanged_outside(
                final(gpio)@[P - 0x41].pupdr,
                old(gpio)@[P - 0x41].pupdr,
                (2 * N) as u32,
                3,
            ),
    {
        proof {
            use_type_invariant(&*self);
        }
        write_pull_up_at(gpio, Gpio::<P>::ptr(), N, on);
        proof {
            lemma_port_address(P - 0x41);
        }
    }
}

impl<const P: u8, const N: u8, const A: u8> PX<Alternate<A>, P, N> {
    /// Set pin speed
    pub fn set_speed(self, speed: Speed, gpio: &mut GpioPorts) -> (r: Self)
        ensures
            r == self,
            final(gpio)@ == ports_with(
                old(gpio)@,
                P - 0x41,
                RegisterBlock {
                    ospeedr: with_field(
                        old(gpio)@[P - 0x41].ospeedr,
                        (2 * N) as u32,
                        3,
                        speed_code(speed),
                    ),
                    ..old(gpio)@[P - 0x41]
                },
            ),
            field(final(gpio)@[P - 0x41].ospeedr, (2 * N) as u32, 3) == speed_code(speed),
            unchanged_outside(
                final(gpio)@[P - 0x41].ospeedr,
                old(gpio)@[P - 0x41].ospeedr,
                (2 * N) as u32,
                3,
            ),
    {
        proof {
            use_type_invariant(&self);
        }
        write_speed_at(gpio, Gpio::<P>::ptr(), N, speed);
        proof {
            lemma_port_address(P - 0x41);
        }
        self
    }

    /// Enables / disables the internal pull up
    pub fn internal_pull_up(self, on: bool, gpio: &mut GpioPorts) -> (r: Self)
        ensures
            r == self,
            final(gpio)@ == ports_with(
                old(gpio)@,
                P - 0x41,
                RegisterBlock {
                    pupdr: with_field(
                        old(gpio)@[P - 0x41].pupdr,
                        (2 * N) as u32,
                        3,
                        pull_up_code(on),
                    ),
                    ..old(gpio)@[P - 0x41]
                },
            ),
            field(final(gpio)@[P - 0x41].pupdr, (2 * N) as u32, 3) == pull_up_code(on),
            unchanged_outside(
                final(gpio)@[P - 0x41].pupdr,
                old(gpio)@[P - 0x41].pupdr,
                (2 * N) as u32,
                3,
            ),
    {
        proof {
            use_type_invariant(&self);
        }
        write_pull_up_at(gpio, Gpio::<P>::ptr(), N, on);
        proof {
            lemma_port_address(P - 0x41);
        }
        self
    }

    /// Turns pin alternate configuration pin into open drain
    pub fn set_open_drain(self, gpio: &mut GpioPorts) -> (r: PX<AlternateOD<A>, P, N>)
        ensures
            final(gpio)@ == ports_with(
                old(gpio)@,
                P - 0x41,
                RegisterBlock {
                    otyper: with_field(old(gpio)@[P - 0x41].otyper, N as u32, 1, 1),
                    ..old(gpio)@[P - 0x41]
                },
            ),
            field(final(gpio)@[P - 0x41].otyper, N as u32, 1) == 1,
            unchanged_outside(final(gpio)@[P - 0x41].otyper, old(gpio)@[P - 0x41].otyper, N as u32, 1),
    {
        proof {
            use_type_invariant(&self);
            lemma_with_bit(gpio@[P - 0x41].otyper, N as u32, 1);
        }
        let offset = N;
        let addr = Gpio::<P>::ptr();
        let mut b = *gpio.block(addr);
        proof {
            lemma_set_bit(b.otyper, offset as u32);
        }
        b.otyper = b.otyper | (1u32 << offset);
        gpio.set_block(addr, b);
        proof {
            lemma_port_address(P - 0x41);
        }
        PX::new()
    }
}

impl<MODE, const P: u8, const N: u8> PX<Output<MODE>, P, N> {
    #[inline(always)]
    pub fn set_high(&mut self, gpio: &mut GpioPorts)
        ensures
            *final(self) == *old(self),
            final(gpio)@ == ports_after_bsrr(old(gpio)@, P - 0x41, bsrr_set_word(N as u32)),
    {
        proof {
            use_type_invariant(&*self);
            lemma_port_address(P - 0x41);
        }
        // NOTE atomic write to a stateless register
        write_bsrr_at(gpio, Gpio::<P>::ptr(), 1u32 << N);
    }

    #[inline(always)]
    pub fn set_low(&mut self, gpio: &mut GpioPorts)
        ensures
            *final(self) == *old(self),
            final(gpio)@ == ports_after_bsrr(old(gpio)@, P - 0x41, bsrr_reset_word(N as u32)),
    {
        proof {
            use_type_invariant(&*self);
            lemma_port_address(P - 0x41);
        }
        // NOTE atomic write to a stateless register
        write_bsrr_at(gpio, Gpio::<P>::ptr(), 1u32 << (N + 16));
    }

    #[inline(always)]
    pub fn get_state(&self, gpio: &GpioPorts) -> (r: PinState)
        ensures
            r == output_state(gpio@[P - 0x41], N),
    {
        if self.is_set_low(gpio) {
            PinState::Low
        } else {
            PinState::High
        }
    }

    #[inline(always)]
    pub fn set_state(&mut self, state: PinState, gpio: &mut GpioPorts)
        ensures
            *final(self) == *old(self),
            final(gpio)@ == ports_after_bsrr(old(gpio)@, P - 0x41, state_word(state, N)),
    {
        match state {
            PinState::Low => self.set_low(gpio),
            PinState::High => self.set_high(gpio),
        }
    }

    #[inline(always)]
    pub fn is_set_high(&self, gpio: &GpioPorts) -> (r: bool)
        ensures
            r == output_high(gpio@[P - 0x41], N),
    {
        !self.is_set_low(gpio)
    }

    #[inline(always)]
    pub fn is_set_low(&self, gpio: &GpioPorts) -> (r: bool)
        ensures
            r == !output_high(gpio@[P - 0x41], N),
    {
        proof {
            use_type_invariant(self);
            lemma_port_address(P - 0x41);
        }
        // NOTE atomic read with no side effects
        odr_bit_clear_at(gpio, Gpio::<P>::ptr(), N)
    }

    #[inline(always)]
    pub fn toggle(&mut self, gpio: &mut GpioPorts)
        ensures
            *final(self) == *old(self),
            final(gpio)@ == ports_after_bsrr(
                old(gpio)@,
                P - 0x41,
                toggle_word(old(gpio)@[P - 0x41], N),
            ),
    {
        if self.is_set_low(gpio) {
            self.set_high(gpio)
        } else {
            self.set_low(gpio)
        }
    }
}

impl<const P: u8, const N: u8> PX<Output<OpenDrain>, P, N> {
    #[inline(always)]
    pub fn is_high(&self, gpio: &GpioPorts) -> (r: bool)
        ensures
            r == input_high(gpio@[P - 0x41], N),
    {
        !self.is_low(gpio)
    }

    #[inline(always)]
    pub fn is_low(&self, gpio: &GpioPorts) -> (r: bool)
        ensures
            r == !input_high(gpio@[P - 0x41], N),
    {
        proof {
            use_type_invariant(self);
            lemma_port_address(P - 0x41);
        }
        // NOTE atomic read with no side effects
        idr_bit_clear_at(gpio, Gpio::<P>::ptr(), N)
    }
}

impl<MODE, const P: u8, const N: u8> PX<Input<MODE>, P, N> {
    #[inline(always)]
    pub fn is_high(&self, gpio: &GpioPorts) -> (r: bool)
        ensures
            r == input_high(gpio@[P - 0x41], N),
    {
        !self.is_low(gpio)
    }

    #[inline(always)]
    pub fn is_low(&self, gpio: &GpioPorts) -> (r: bool)
        ensures
            r == !input_high(gpio@[P - 0x41], N),
    {
        proof {
            use_type_invariant(self);
            lemma_port_address(P - 0x41);
        }
        // NOTE atomic read with no side effects
        idr_bit_clear_at(gpio, Gpio::<P>::ptr(), N)
    }
}

/// Partially erased pin
pub struct PXx<MODE, const P: u8> {
    i: u8,
    _mode: PhantomData<MODE>,
}

impl<MODE, const P: u8> PXx<MODE, P> {
    /// A pin is one of pins 0 to 15 of one of ports 'A' to 'K'.
    #[verifier::type_invariant]
    spec fn valid(self) -> bool {
        &&& self.i < 16
        &&& 0x41 <= P <= 0x4b
    }
}

impl<MODE, const P: u8> PinExt for PXx<MODE, P> {
    type Mode = MODE;

    closed spec fn pin_id_spec(&self) -> u8 {
        self.i
    }

    open spec fn port_id_spec(&self) -> u8 {
        (P - 0x41) as u8
    }

    #[inline(always)]
    fn pin_id(&self) -> (r: u8) {
        proof {
            use_type_invariant(self);
        }
        self.i
    }

    #[inline(always)]
    fn port_id(&self) -> (r: u8) {
        proof {
            use_type_invariant(self);
        }
        P - 0x41
    }
}

impl<MODE, const P: u8> PXx<Output<MODE>, P> {
    #[inline(always)]
    pub fn set_high(&mut self, gpio: &mut GpioPorts)
        ensures
            *final(self) == *old(self),
            final(gpio)@ == ports_after_bsrr(
                old(gpio)@,
                P - 0x41,
                bsrr_set_word(old(self).pin_id_spec() as u32),
            ),
    {
        proof {
            use_type_invariant(&*self);
            lemma_port_address(P - 0x41);
        }
        // NOTE atomic write to a stateless register
        write_bsrr_at(gpio, Gpio::<P>::ptr(), 1u32 << self.i);
    }

    #[inline(always)]
    pub fn set_low(&mut self, gpio: &mut GpioPorts)
        ensures
            *final(self) == *old(self),
            final(gpio)@ == ports_after_bsrr(
                old(gpio)@,
                P - 0x41,
                bsrr_reset_word(old(self).pin_id_spec() as u32),
            ),
    {
        proof {
            use_type_invariant(&*self);
            lemma_port_address(P - 0x41);
        }
        // NOTE atomic write to a stateless register
        write_bsrr_at(gpio, Gpio::<P>::ptr(), 1u32 << (self.i + 16));
    }

    #[inline(always)]
    pub fn get_state(&self, gpio: &GpioPorts) -> (r: PinState)
        ensures
            r == output_state(gpio@[P - 0x41], self.pin_id_spec()),
    {
        if self.is_set_low(gpio) {
            PinState::Low
        } else {
            PinState::High
        }
    }

    #[inline(always)]
    pub fn set_state(&mut self, state: PinState, gpio: &mut GpioPorts)
        ensures
            *final(self) == *old(self),
            final(gpio)@ == ports_after_bsrr(
                old(gpio)@,
                P - 0x41,
                state_word(state, old(self).pin_id_spec()),
            ),
    {
        match state {
            PinState::Low => self.set_low(gpio),
            PinState::High => self.set_high(gpio),
        }
    }

    #[inline(always)]
    pub fn is_set_high(&self, gpio: &GpioPorts) -> (r: bool)
        ensures
            r == output_high(gpio@[P - 0x41], self.pin_id_spec()),
    {
        !self.is_set_low(gpio)
    }

    #[inline(always)]
    pub fn is_set_low(&self, gpio: &GpioPorts) -> (r: bool)
        ensures
            r == !output_high(gpio@[P - 0x41], self.pin_id_spec()),
    {
        proof {
            use_type_invariant(self);
            lemma_port_address(P - 0x41);
        }
        // NOTE atomic read with no side effects
        odr_bit_clear_at(gpio, Gpio::<P>::ptr(), self.i)
    }

    #[inline(always)]
    pub fn toggle(&mut self, gpio: &mut GpioPorts)
        ensures
            *final(self) == *old(self),
            final(gpio)@ == ports_after_bsrr(
                old(gpio)@,
                P - 0x41,
                toggle_word(old(gpio)@[P - 0x41], old(self).pin_id_spec()),
            ),
    {
        if self.is_set_low(gpio) {
            self.set_high(gpio)
        } else {
            self.set_low(gpio)
        }
    }
}

impl<const P: u8> PXx<Output<OpenDrain>, P> {
    #[inline(always)]
    pub fn is_high(&self, gpio: &GpioPorts) -> (r: bool)
        ensures
            r == input_high(gpio@[P - 0x41], self.pin_id_spec()),
    {
        !self.is_low(gpio)
    }

    #[inline(always)]
    pub fn is_low(&self, gpio: &GpioPorts) -> (r: bool)
        ensures
            r == !input_high(gpio@[P - 0x41], self.pin_id_spec()),
    {
        proof {
            use_type_invariant(self);
            lemma_port_address(P - 0x41);
        }
        // NOTE atomic read with no side effects
        idr_bit_clear_at(gpio, Gpio::<P>::ptr(), self.i)
    }
}

impl<MODE, const P: u8> PXx<Input<MODE>, P> {
    #[inline(always)]
    pub fn is_high(&self, gpio: &GpioPorts) -> (r: bool)
        ensures
            r == input_high(gpio@[P - 0x41], self.pin_id_spec()),
    {
        !self.is_low(gpio)
    }

    #[inline(always)]
    pub fn is_low(&self, gpio: &GpioPorts) -> (r: bool)
        ensures
            r == !input_high(gpio@[P - 0x41], self.pin_id_spec()),
    {
        proof {
            use_type_invariant(self);
            lemma_port_address(P - 0x41);
        }
        // NOTE atomic read with no side effects
        idr_bit_clear_at(gpio, Gpio::<P>::ptr(), self.i)
    }
}

/// Fully erased pin
pub struct Pin<MODE> {
    // Bits 0-3: Pin, Bits 4-7: Port
    pin_port: u8,
    _mode: PhantomData<MODE>,
}

impl<MODE> Pin<MODE> {
    /// The port packed in the upper four bits is one of ports 'A' to 'K'.
    #[verifier::type_invariant]
    spec fn valid(self) -> bool {
        (self.pin_port >> 4u8) < NUM_PORTS
    }
}

impl<MODE> PinExt for Pin<MODE> {
    type Mode = MODE;

    closed spec fn pin_id_spec(&self) -> u8 {
        self.pin_port & 0x0f
    }

    closed spec fn port_id_spec(&self) -> u8 {
        self.pin_port >> 4u8
    }

    #[inline(always)]
    fn pin_id(&self) -> (r: u8) {
        let pin_port = self.pin_port;
        let r = pin_port & 0x0f;
        assert(r < 16) by (bit_vector)
            requires
                r == pin_port & 0x0fu8,
        ;
        r
    }

    #[inline(always)]
    fn port_id(&self) -> (r: u8) {
        proof {
            use_type_invariant(self);
        }
        self.pin_port >> 4
    }
}

impl<MODE> Pin<MODE> {
    /// The pin handle of pin `pin` of port number `port` (0 for port A).
    pub fn new(port: u8, pin: u8) -> (r: Self)
        requires
            port < NUM_PORTS,
            pin < 16,
        ensures
            r.port_id_spec() == port,
            r.pin_id_spec() == pin,
    {
        let pin_port: u8 = port << 4 | pin;
        assert((pin_port >> 4u8) == port && (pin_port & 0x0fu8) == pin) by (bit_vector)
            requires
                pin_port == (port << 4u8) | pin,
                port < 16u8,
                pin < 16u8,
        ;
        Self { pin_port, _mode: PhantomData }
    }

    /// Base address of the register block of the pin's port.
    ///
    /// This uses arithmetic on the base address of port A instead of a lookup:
    /// all GPIO register blocks have the same layout and consecutive blocks are
    /// `GPIO_REGISTER_OFFSET` apart.
    #[inline]
    pub fn block(&self) -> (r: usize)
        ensures
            r == port_address(self.port_id_spec() as int),
            is_port_address(r),
            r == 0x4002_0000 + 0x400 * self.port_id_spec(),
            self.port_id_spec() < NUM_PORTS,
    {
        proof {
            use_type_invariant(self);
        }
        let offset = GPIO_REGISTER_OFFSET * self.port_id() as usize;
        proof {
            lemma_port_address(self.port_id_spec() as int);
        }
        GPIOA_BASE + offset
    }
}

impl<MODE> Pin<Output<MODE>> {
    #[inline(always)]
    pub fn set_high(&mut self, gpio: &mut GpioPorts)
        ensures
            *final(self) == *old(self),
            final(gpio)@ == ports_after_bsrr(
                old(gpio)@,
                old(self).port_id_spec() as int,
                bsrr_set_word(old(self).pin_id_spec() as u32),
            ),
    {
        let addr = self.block();
        let i = self.pin_id();
        proof {
            lemma_port_address(self.port_id_spec() as int);
        }
        // NOTE atomic write to a stateless register
        write_bsrr_at(gpio, addr, 1u32 << i);
    }

    #[inline(always)]
    pub fn set_low(&mut self, gpio: &mut GpioPorts)
        ensures
            *final(self) == *old(self),
            final(gpio)@ == ports_after_bsrr(
                old(gpio)@,
                old(self).port_id_spec() as int,
                bsrr_reset_word(old(self).pin_id_spec() as u32),
            ),
    {
        let addr = self.block();
        let i = self.pin_id();
        proof {
            lemma_port_address(self.port_id_spec() as int);
        }
        // NOTE atomic write to a stateless register
        write_bsrr_at(gpio, addr, 1u32 << (i + 16));
    }

    #[inline(always)]
    pub fn get_state(&self, gpio: &GpioPorts) -> (r: PinState)
        ensures
            r == output_state(gpio@[self.port_id_spec() as int], self.pin_id_spec()),
    {
        if self.is_set_low(gpio) {
            PinState::Low
        } else {
            PinState::High
        }
    }

    #[inline(always)]
    pub fn set_state(&mut self, state: PinState, gpio: &mut GpioPorts)
        ensures
            *final(self) == *old(self),
            final(gpio)@ == ports_after_bsrr(
                old(gpio)@,
                old(self).port_id_spec() as int,
                state_word(state, old(self).pin_id_spec()),
            ),
    {
        match state {
            PinState::Low => self.set_low(gpio),
            PinState::High => self.set_high(gpio),
        }
    }

    #[inline(always)]
    pub fn is_set_high(&self, gpio: &GpioPorts) -> (r: bool)
        ensures
            r == output_high(gpio@[self.port_id_spec() as int], self.pin_id_spec()),
    {
        !self.is_set_low(gpio)
    }

    #[inline(always)]
    pub fn is_set_low(&self, gpio: &GpioPorts) -> (r: bool)
        ensures
            r == !output_high(gpio@[self.port_id_spec() as int], self.pin_id_spec()),
    {
        let addr = self.block();
        let i = self.pin_id();
        proof {
            lemma_port_address(self.port_id_spec() as int);
        }
        odr_bit_clear_at(gpio, addr, i)
    }

    #[inline(always)]
    pub fn toggle(&mut self, gpio: &mut GpioPorts)
        ensures
            *final(self) == *old(self),
            final(gpio)@ == ports_after_bsrr(
                old(gpio)@,
                old(self).port_id_spec() as int,
                toggle_word(old(gpio)@[old(self).port_id_spec() as int], old(self).pin_id_spec()),
            ),
    {
        if self.is_set_low(gpio) {
            self.set_high(gpio)
        } else {
            self.set_low(gpio)
        }
    }
}

impl Pin<Output<OpenDrain>> {
    #[inline(always)]
    pub fn is_high(&self, gpio: &GpioPorts) -> (r: bool)
        ensures
            r == input_high(gpio@[self.port_id_spec() as int], self.pin_id_spec()),
    {
        !self.is_low(gpio)
    }

    #[inline(always)]
    pub fn is_low(&self, gpio: &GpioPorts) -> (r: bool)
        ensures
            r == !input_high(gpio@[self.port_id_spec() as int], self.pin_id_spec()),
    {
        let addr = self.block();
        let i = self.pin_id();
        proof {
            lemma_port_address(self.port_id_spec() as int);
        }
        idr_bit_clear_at(gpio, addr, i)
    }
}

impl<MODE> Pin<Input<MODE>> {
    #[inline(always)]
    pub fn is_high(&self, gpio: &GpioPorts) -> (r: bool)
        ensures
            r == input_high(gpio@[self.port_id_spec() as int], self.pin_id_spec()),
    {
        !self.is_low(gpio)
    }

    #[inline(always)]
    pub fn is_low(&self, gpio: &GpioPorts) -> (r: bool)
        ensures
            r == !input_high(gpio@[self.port_id_spec() as int], self.pin_id_spec()),
    {
        let addr = self.block();
        let i = self.pin_id();
        proof {
            lemma_port_address(self.port_id_spec() as int);
        }
        idr_bit_clear_at(gpio, addr, i)
    }
}

impl<MODE, const P: u8, const N: u8> PX<MODE, P, N> {
    /// Erases the pin number from the type
    ///
    /// This is useful when you want to collect the pins into an array where you
    /// need all the elements to have the same type
    pub fn downgrade(self) -> (r: PXx<MODE, P>)
        ensures
            r.pin_id_spec() == N,
            r.port_id_spec() == self.port_id_spec(),
    {
        proof {
            use_type_invariant(&self);
        }
        PXx { i: N, _mode: self._mode }
    }

    /// Erases the pin number and the port from the type
    ///
    /// This is useful when you want to collect the pins into an array where you
    /// need all the elements to have the same type
    pub fn downgrade2(self) -> (r: Pin<MODE>)
        ensures
            r.pin_id_spec() == N,
            r.port_id_spec() == self.port_id_spec(),
    {
        proof {
            use_type_invariant(&self);
        }
        Pin::new(P - 0x41, N)
    }
}

/// A pin and the fully erased pin made from it (same pin and port number) use
/// the same register block: the address arithmetic of `Pin::block` agrees with
/// the address map of `Gpio::ptr`.
pub proof fn lemma_downgrade2_same_block<MODE, const P: u8, const N: u8>(
    typed: PX<MODE, P, N>,
    erased: Pin<MODE>,
)
    requires
        0x41 <= P <= 0x4b,
        erased.pin_id_spec() == typed.pin_id_spec(),
        erased.port_id_spec() == typed.port_id_spec(),
    ensures
        port_address(erased.port_id_spec() as int) == Gpio::<P>::ptr_spec(),
{
}

/// A pin's input level is bit `pin` of the input data register of its port.
pub proof fn lemma_input_high_is_idr_bit(b: RegisterBlock, pin: u8)
    requires
        pin < 16,
    ensures
        input_high(b, pin) == ((b.idr >> pin as u32) & 1u32 == 1u32),
        input_high(b, pin) == (b.idr & (1u32 << pin as u32) != 0u32),
{
    lemma_bit_test(b.idr, pin as u32);
}

/// A pin's output level is bit `pin` of the output data register of its port.
pub proof fn lemma_output_high_is_odr_bit(b: RegisterBlock, pin: u8)
    requires
        pin < 16,
    ensures
        output_high(b, pin) == ((b.odr >> pin as u32) & 1u32 == 1u32),
        output_high(b, pin) == (b.odr & (1u32 << pin as u32) != 0u32),
        (output_state(b, pin) == PinState::High) == ((b.odr >> pin as u32) & 1u32 == 1u32),
        (output_state(b, pin) == PinState::Low) == ((b.odr >> pin as u32) & 1u32 == 0u32),
{
    lemma_bit_test(b.odr, pin as u32);
}

/// Writing the bit set/reset word of a state for pin `pin` puts the state into
/// bit `pin` of the output data register (1 for high) and keeps every other bit.
pub proof fn lemma_state_word_bits(odr: u32, pin: u8, state: PinState)
    requires
        pin < 16,
    ensures
        ((odr_after_bsrr(odr, state_word(state, pin)) >> pin as u32) & 1u32 == 1u32) == (state
            == PinState::High),
        forall|q: u32|
            q < 32 && q != pin ==> #[trigger] ((odr_after_bsrr(odr, state_word(state, pin)) >> q)
                & 1u32) == (odr >> q) & 1u32,
{
    let after = odr_after_bsrr(odr, state_word(state, pin));
    lemma_state_word(odr, pin, state);
    lemma_with_bit(odr, pin as u32, bit_value(state == PinState::High));
    assert forall|q: u32| q < 32 && q != pin implies #[trigger] ((after >> q) & 1u32) == (odr >> q)
        & 1u32 by {
        lemma_distinct_bits(pin as u32, q);
        lemma_disjoint_field(after, odr, pin as u32, 1, q, 1);
    }
}

/// A toggle writes the word that drives the pin to the opposite of its current
/// output bit.
pub proof fn lemma_toggle_word_bits(b: RegisterBlock, pin: u8)
    requires
        pin < 16,
    ensures
        toggle_word(b, pin) == state_word(
            if (b.odr >> pin as u32) & 1u32 == 1u32 {
                PinState::Low
            } else {
                PinState::High
            },
            pin,
        ),
{
    lemma_bit_test(b.odr, pin as u32);
}

/// Rising-edge triggering is selected by every edge setting but falling only,
/// falling-edge triggering by every edge setting but rising only.
pub proof fn lemma_edges(edge: Edge)
    ensures
        rises(edge) == (edge != Edge::FALLING),
        falls(edge) == (edge != Edge::RISING),
        bit_value(rises(edge)) <= 1,
        bit_value(falls(edge)) <= 1,
        (bit_value(rises(edge)) == 1) == rises(edge),
        (bit_value(falls(edge)) == 1) == falls(edge),
{
}

/// The speed codes grow with the speed, from 0 for low to 3 for very high.
pub proof fn lemma_speed_codes(a: Speed, b: Speed)
    ensures
        speed_code(a) <= 3,
        speed_code(Speed::Low) == 0,
        speed_code(Speed::VeryHigh) == 3,
        speed_code(Speed::Low) < speed_code(Speed::Medium) < speed_code(Speed::High)
            < speed_code(Speed::VeryHigh),
        (speed_code(a) == speed_code(b)) == (a == b),
{
}

/// Enabling the pull-up writes `0b01` into the pin's pull field, disabling it `0b00`.
pub proof fn lemma_pull_up_codes(on: bool)
    ensures
        pull_up_code(on) == (if on {
            1u32
        } else {
            0u32
        }),
{
}

/// The alternate-function fields of pins 0 to 15 are the consecutive four-bit
/// fields of the 64-bit value AFRH:AFRL: pin `pin` occupies bits `4 * pin` to
/// `4 * pin + 3` of it.
pub proof fn lemma_afr_field(b: RegisterBlock, pin: u8)
    requires
        pin < 16,
    ensures
        field(afr_of(b, pin), afr_offset(pin), 15) as u64 == ((((b.afrh as u64) << 32u64) | (
        b.afrl as u64)) >> (4 * pin) as u64) & 15u64,
{
    let lo = b.afrl;
    let hi = b.afrh;
    let s = (4 * pin) as u64;
    if pin < 8 {
        let o = (4 * pin) as u32;
        assert(((lo >> o) & 15u32) as u64 == ((((hi as u64) << 32u64) | (lo as u64)) >> s) & 15u64)
            by (bit_vector)
            requires
                o < 32u32,
                s == o as u64,
                o <= 28u32,
        ;
    } else {
        let o = (4 * pin - 32) as u32;
        assert(((hi >> o) & 15u32) as u64 == ((((hi as u64) << 32u64) | (lo as u64)) >> s) & 15u64)
            by (bit_vector)
            requires
                o <= 28u32,
                s == o as u64 + 32u64,
        ;
    }
}

} // verus!
