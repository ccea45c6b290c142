//! Plain-value models of the peripheral registers that the GPIO driver reads and writes.
//!
//! Each struct holds, as `u32` values, the registers of one peripheral. Where a
//! register is written with a side effect on another one (the GPIO bit set/reset
//! register, the EXTI pending register), the model applies the effect that the
//! STM32F4 reference manual documents for it.
use crate::bits::{
    field, unchanged_outside, with_field, lemma_with_field, lemma_disjoint_field,
    lemma_distinct_nibbles,
};
use vstd::prelude::*;

verus! {

/// Base address of the register block of port A.
pub const GPIOA_BASE: usize = 0x4002_0000;

/// Distance between the register blocks of two consecutive ports.
pub const GPIO_REGISTER_OFFSET: usize = 0x0400;

/// Number of GPIO ports of the chip (A to K).
pub const NUM_PORTS: usize = 11;

/// Address of the register block of port number `port` (0 for A).
pub open spec fn port_address(port: int) -> int {
    GPIOA_BASE + GPIO_REGISTER_OFFSET * port
}

/// `addr` is the base address of the register block of one of the ports.
pub open spec fn is_port_address(addr: usize) -> bool {
    &&& GPIOA_BASE <= addr < GPIOA_BASE + GPIO_REGISTER_OFFSET * NUM_PORTS
    &&& (addr - GPIOA_BASE) % (GPIO_REGISTER_OFFSET as int) == 0
}

/// Port number whose register block starts at `addr`.
pub open spec fn port_of_address(addr: usize) -> int {
    (addr - GPIOA_BASE) / (GPIO_REGISTER_OFFSET as int)
}

/// The base address of every port is a port address, and names that port.
pub proof fn lemma_port_address(port: int)
    requires
        0 <= port < NUM_PORTS,
    ensures
        is_port_address(port_address(port) as usize),
        port_of_address(port_address(port) as usize) == port,
{
    assert(port_address(port) - GPIOA_BASE == 0x400 * port);
    assert((0x400 * port) % 0x400 == 0) by (nonlinear_arith);
    assert((0x400 * port) / 0x400 == port) by (nonlinear_arith);
}

/// The memory map of the GPIO ports: port `p` (0 for A) has its register block
/// at `0x4002_0000 + 0x400 * p`, and that address names port `p` again.
pub proof fn lemma_port_address_map(port: int)
    requires
        0 <= port < NUM_PORTS,
    ensures
        port_address(port) == 0x4002_0000 + 0x400 * port,
        port_of_address((0x4002_0000 + 0x400 * port) as usize) == port,
        is_port_address((0x4002_0000 + 0x400 * port) as usize),
{
    lemma_port_address(port);
}

/// Port A's block is at `0x4002_0000` and the block of each next port is
/// `0x400` bytes further.
pub proof fn lemma_port_addresses_consecutive(port: int)
    requires
        0 <= port,
        port + 1 < NUM_PORTS,
    ensures
        port_address(0) == 0x4002_0000,
        port_address(port + 1) == port_address(port) + 0x400,
{
}

/// Every port address is `0x4002_0000 + 0x400 * p` for the port `p` it names,
/// with `p` one of the ports.
pub proof fn lemma_is_port_address(addr: usize)
    requires
        is_port_address(addr),
    ensures
        0 <= port_of_address(addr) < NUM_PORTS,
        addr == 0x4002_0000 + 0x400 * port_of_address(addr),
{
    let d = addr - 0x4002_0000;
    assert(d == 0x400 * (d / 0x400) + d % 0x400) by (nonlinear_arith);
    assert(0 <= d / 0x400 < 11) by (nonlinear_arith)
        requires
            0 <= d < 0x400 * 11,
    ;
}

/// The bit set/reset register acts bit by bit: for each pin `j` below 16, output
/// bit `j` is set when bit `j` of the written word is set, else cleared when bit
/// `j + 16` is set, else kept; the upper half of the output register is kept.
pub proof fn lemma_bsrr_bits(odr: u32, value: u32)
    ensures
        forall|j: u32|
            j < 16 ==> #[trigger] ((odr_after_bsrr(odr, value) >> j) & 1u32) == (if (value >> j)
                & 1u32 == 1u32 {
                1u32
            } else if (value >> (j + 16u32)) & 1u32 == 1u32 {
                0u32
            } else {
                (odr >> j) & 1u32
            }),
        forall|j: u32|
            16 <= j < 32 ==> #[trigger] ((odr_after_bsrr(odr, value) >> j) & 1u32) == (odr >> j)
                & 1u32,
{
    let after = odr_after_bsrr(odr, value);
    assert(forall|j: u32|
        j < 16 ==> #[trigger] ((after >> j) & 1u32) == (if (value >> j) & 1u32 == 1u32 {
            1u32
        } else if (value >> (j + 16u32)) & 1u32 == 1u32 {
            0u32
        } else {
            (odr >> j) & 1u32
        })) by (bit_vector)
        requires
            after == (odr & !(value >> 16u32)) | (value & 0xffffu32),
    ;
    assert(forall|j: u32| 16 <= j < 32 ==> #[trigger] ((after >> j) & 1u32) == (odr >> j) & 1u32)
        by (bit_vector)
        requires
            after == (odr & !(value >> 16u32)) | (value & 0xffffu32),
    ;
}

/// The registers of one GPIO port.
#[derive(Clone, Copy)]
pub struct RegisterBlock {
    /// Mode register: two bits per pin.
    pub moder: u32,
    /// Output type register: one bit per pin, set for open drain.
    pub otyper: u32,
    /// Output speed register: two bits per pin.
    pub ospeedr: u32,
    /// Pull-up / pull-down register: two bits per pin.
    pub pupdr: u32,
    /// Input data register: one bit per pin.
    pub idr: u32,
    /// Output data register: one bit per pin.
    pub odr: u32,
    /// Alternate function register for pins 0 to 7: four bits per pin.
    pub afrl: u32,
    /// Alternate function register for pins 8 to 15: four bits per pin.
    pub afrh: u32,
}

/// What the output data register holds after `value` is written to the bit
/// set/reset register: bits 0-15 set the corresponding output bits, bits 16-31
/// reset them, and a set wins over a reset of the same pin.
pub open spec fn odr_after_bsrr(odr: u32, value: u32) -> u32 {
    (odr & !(value >> 16u32)) | (value & 0xffffu32)
}

/// The word that sets output pin `pin` when written to the bit set/reset register.
pub open spec fn bsrr_set_word(pin: u32) -> u32 {
    1u32 << pin
}

/// The word that resets output pin `pin` when written to the bit set/reset register.
pub open spec fn bsrr_reset_word(pin: u32) -> u32 {
    1u32 << (pin + 16) as u32
}

/// Writing the set word of a pin raises that output bit and keeps the others.
pub proof fn lemma_bsrr_set(odr: u32, pin: u32)
    requires
        pin < 16,
    ensures
        odr_after_bsrr(odr, bsrr_set_word(pin)) == with_field(odr, pin, 1, 1),
{
    assert(((odr & !((1u32 << pin) >> 16u32)) | ((1u32 << pin) & 0xffffu32)) == ((odr & !(1u32
        << pin)) | (1u32 << pin))) by (bit_vector)
        requires
            pin < 16u32,
    ;
}

/// Writing the reset word of a pin lowers that output bit and keeps the others.
pub proof fn lemma_bsrr_reset(odr: u32, pin: u32)
    requires
        pin < 16,
    ensures
        odr_after_bsrr(odr, bsrr_reset_word(pin)) == with_field(odr, pin, 1, 0),
{
    let hi = (pin + 16) as u32;
    assert(((odr & !((1u32 << hi) >> 16u32)) | ((1u32 << hi) & 0xffffu32)) == ((odr & !(1u32
        << pin)) | (0u32 << pin))) by (bit_vector)
        requires
            pin < 16u32,
            hi == pin + 16u32,
    ;
}

impl RegisterBlock {
    /// A register block with every register zero.
    pub fn new() -> (r: RegisterBlock)
        ensures
            r == (RegisterBlock {
                moder: 0,
                otyper: 0,
                ospeedr: 0,
                pupdr: 0,
                idr: 0,
                odr: 0,
                afrl: 0,
                afrh: 0,
            }),
    {
        RegisterBlock {
            moder: 0,
            otyper: 0,
            ospeedr: 0,
            pupdr: 0,
            idr: 0,
            odr: 0,
            afrl: 0,
            afrh: 0,
        }
    }

    /// The block after `value` is written to its bit set/reset register.
    pub open spec fn after_bsrr(self, value: u32) -> RegisterBlock {
        RegisterBlock { odr: odr_after_bsrr(self.odr, value), ..self }
    }

    /// Writes `value` to the bit set/reset register.
    pub fn write_bsrr(&mut self, value: u32)
        ensures
            *final(self) == old(self).after_bsrr(value),
    {
        self.odr = (self.odr & !(value >> 16u32)) | (value & 0xffffu32);
    }
}

/// The register blocks of all GPIO ports, port A first, found by their base address.
pub struct GpioPorts {
    pub blocks: [RegisterBlock; NUM_PORTS],
}

impl View for GpioPorts {
    type V = Seq<RegisterBlock>;

    /// The blocks, indexed by port number.
    open spec fn view(&self) -> Seq<RegisterBlock> {
        self.blocks@
    }
}

impl GpioPorts {
    /// Every port with the same initial register values.
    pub fn new(initial: RegisterBlock) -> (r: GpioPorts)
        ensures
            r@ =~= Seq::new(NUM_PORTS as nat, |k: int| initial),
    {
        GpioPorts { blocks: [initial; 11] }
    }

    /// The register block that starts at `addr`.
    pub fn block(&self, addr: usize) -> (r: &RegisterBlock)
        requires
            is_port_address(addr),
        ensures
            *r == self@[port_of_address(addr)],
            *r == self.blocks@[(addr - 0x4002_0000) / 0x400],
    {
        let idx = (addr - GPIOA_BASE) / GPIO_REGISTER_OFFSET;
        &self.blocks[idx]
    }

    /// Replaces the register block that starts at `addr`.
    pub fn set_block(&mut self, addr: usize, b: RegisterBlock)
        requires
            is_port_address(addr),
        ensures
            final(self)@ == old(self)@.update(port_of_address(addr), b),
            final(self).blocks@ == old(self).blocks@.update((addr - 0x4002_0000) / 0x400, b),
    {
        let idx = (addr - GPIOA_BASE) / GPIO_REGISTER_OFFSET;
        self.blocks[idx] = b;
    }
}

/// The registers of the external interrupt controller.
#[allow(non_camel_case_types)]
#[derive(Clone, Copy)]
pub struct EXTI {
    /// Interrupt mask register: one bit per line, set when the interrupt is enabled.
    pub imr: u32,
    /// Event mask register.
    pub emr: u32,
    /// Rising edge trigger selection register.
    pub rtsr: u32,
    /// Falling edge trigger selection register.
    pub ftsr: u32,
    /// Software interrupt event register.
    pub swier: u32,
    /// Pending register: one bit per line, cleared by writing 1 to it.
    pub pr: u32,
}

impl EXTI {
    /// An interrupt controller with every register zero.
    pub fn new() -> (r: EXTI)
        ensures
            r == (EXTI { imr: 0, emr: 0, rtsr: 0, ftsr: 0, swier: 0, pr: 0 }),
    {
        EXTI { imr: 0, emr: 0, rtsr: 0, ftsr: 0, swier: 0, pr: 0 }
    }

    /// Writes `value` to the pending register: each bit set in `value` clears that
    /// pending bit, the others stay.
    pub fn write_pr(&mut self, value: u32)
        ensures
            *final(self) == (EXTI { pr: old(self).pr & !value, ..*old(self) }),
    {
        self.pr = self.pr & !value;
    }
}

/// The external interrupt configuration registers of the system configuration controller.
#[derive(Clone, Copy)]
pub struct SysCfg {
    /// Sources of EXTI lines 0 to 3, four bits each.
    pub exticr1: u32,
    /// Sources of EXTI lines 4 to 7.
    pub exticr2: u32,
    /// Sources of EXTI lines 8 to 11.
    pub exticr3: u32,
    /// Sources of EXTI lines 12 to 15.
    pub exticr4: u32,
}

impl SysCfg {
    /// A configuration with every line sourced from port A.
    pub fn new() -> (r: SysCfg)
        ensures
            r == (SysCfg { exticr1: 0, exticr2: 0, exticr3: 0, exticr4: 0 }),
    {
        SysCfg { exticr1: 0, exticr2: 0, exticr3: 0, exticr4: 0 }
    }

    /// External interrupt configuration register `k` (0 for EXTICR1).
    pub open spec fn exticr(self, k: int) -> u32 {
        if k == 0 {
            self.exticr1
        } else if k == 1 {
            self.exticr2
        } else if k == 2 {
            self.exticr3
        } else {
            self.exticr4
        }
    }

    /// The port number selected as source of EXTI line `line` (below 16).
    pub open spec fn exti_source(self, line: int) -> u32 {
        field(self.exticr(line / 4), (4 * (line % 4)) as u32, 15)
    }

    /// The configuration with external interrupt configuration register `k` set to `v`.
    pub open spec fn with_exticr(self, k: int, v: u32) -> SysCfg {
        SysCfg {
            exticr1: if k == 0 {
                v
            } else {
                self.exticr1
            },
            exticr2: if k == 1 {
                v
            } else {
                self.exticr2
            },
            exticr3: if k == 2 {
                v
            } else {
                self.exticr3
            },
            exticr4: if k == 3 {
                v
            } else {
                self.exticr4
            },
        }
    }

    /// The configuration with port number `port` written as source of EXTI line `line`.
    pub open spec fn with_exti_source(self, line: int, port: u32) -> SysCfg {
        self.with_exticr(
            line / 4,
            with_field(self.exticr(line / 4), (4 * (line % 4)) as u32, 15, port),
        )
    }
}

/// Writing the source of one EXTI line makes that line read back the written port
/// and leaves the source of every other line as it was.
pub proof fn lemma_with_exti_source(cfg: SysCfg, line: int, port: u32)
    requires
        0 <= line < 16,
        port < 16,
    ensures
        cfg.with_exti_source(line, port).exti_source(line) == port,
        forall|other: int|
            0 <= other < 16 && other != line ==> #[trigger] cfg.with_exti_source(
                line,
                port,
            ).exti_source(other) == cfg.exti_source(other),
{
    let new = cfg.with_exti_source(line, port);
    let k = line / 4;
    let off = (4 * (line % 4)) as u32;
    lemma_with_field(cfg.exticr(k), off, 15, port);
    assert(new.exticr(k) == with_field(cfg.exticr(k), off, 15, port));
    assert forall|other: int| 0 <= other < 16 && other != line implies #[trigger] new.exti_source(
        other,
    ) == cfg.exti_source(other) by {
        let ko = other / 4;
        let off_o = (4 * (other % 4)) as u32;
        if ko != k {
            assert(new.exticr(ko) == cfg.exticr(ko));
        } else {
            assert(other % 4 != line % 4);
            lemma_distinct_nibbles((line % 4) as u32, (other % 4) as u32);
            lemma_disjoint_field(new.exticr(k), cfg.exticr(k), off, 15, off_o, 15);
        }
    }
}

/// The source of EXTI line `line` is the four bits at `4 * (line % 4)` of
/// EXTICR1 for lines 0-3, EXTICR2 for 4-7, EXTICR3 for 8-11 and EXTICR4 for 12-15.
pub proof fn lemma_exti_source_register(cfg: SysCfg, line: int)
    requires
        0 <= line < 16,
    ensures
        cfg.exti_source(line) == ((if line < 4 {
            cfg.exticr1
        } else if line < 8 {
            cfg.exticr2
        } else if line < 12 {
            cfg.exticr3
        } else {
            cfg.exticr4
        }) >> (4 * (line % 4)) as u32) & 15u32,
{
}

} // verus!
