//! GPIO port G: its peripheral handle, its pins, and the split into pins.
use crate::gpio::{Floating, GpioExt, Input, PX, PXx};
use vstd::prelude::*;

verus! {

/// The GPIOG peripheral.
pub struct GPIOG;

/// GPIO parts
pub struct Parts {
    /// Pin
    pub pg0: PG0<Input<Floating>>,
    /// Pin
    pub pg1: PG1<Input<Floating>>,
    /// Pin
    pub pg2: PG2<Input<Floating>>,
    /// Pin
    pub pg3: PG3<Input<Floating>>,
    /// Pin
    pub pg4: PG4<Input<Floating>>,
    /// Pin
    pub pg5: PG5<Input<Floating>>,
    /// Pin
    pub pg6: PG6<Input<Floating>>,
    /// Pin
    pub pg7: PG7<Input<Floating>>,
    /// Pin
    pub pg8: PG8<Input<Floating>>,
    /// Pin
    pub pg9: PG9<Input<Floating>>,
    /// Pin
    pub pg10: PG10<Input<Floating>>,
    /// Pin
    pub pg11: PG11<Input<Floating>>,
    /// Pin
    pub pg12: PG12<Input<Floating>>,
    /// Pin
    pub pg13: PG13<Input<Floating>>,
    /// Pin
    pub pg14: PG14<Input<Floating>>,
    /// Pin
    pub pg15: PG15<Input<Floating>>,
}

impl GpioExt for GPIOG {
    type Parts = Parts;

    fn split(self) -> Parts {
        Parts {
            pg0: PG0::new(),
            pg1: PG1::new(),
            pg2: PG2::new(),
            pg3: PG3::new(),
            pg4: PG4::new(),
            pg5: PG5::new(),
            pg6: PG6::new(),
            pg7: PG7::new(),
            pg8: PG8::new(),
            pg9: PG9::new(),
            pg10: PG10::new(),
            pg11: PG11::new(),
            pg12: PG12::new(),
            pg13: PG13::new(),
            pg14: PG14::new(),
            pg15: PG15::new(),
        }
    }
}

/// Pin of port G with the pin number erased.
pub type PGn<MODE> = PXx<MODE, 0x47>;

pub type PG0<MODE> = PX<MODE, 0x47, 0>;

pub type PG1<MODE> = PX<MODE, 0x47, 1>;

pub type PG2<MODE> = PX<MODE, 0x47, 2>;

pub type PG3<MODE> = PX<MODE, 0x47, 3>;

pub type PG4<MODE> = PX<MODE, 0x47, 4>;

pub type PG5<MODE> = PX<MODE, 0x47, 5>;

pub type PG6<MODE> = PX<MODE, 0x47, 6>;

pub type PG7<MODE> = PX<MODE, 0x47, 7>;

pub type PG8<MODE> = PX<MODE, 0x47, 8>;

pub type PG9<MODE> = PX<MODE, 0x47, 9>;

pub type PG10<MODE> = PX<MODE, 0x47, 10>;

pub type PG11<MODE> = PX<MODE, 0x47, 11>;

pub type PG12<MODE> = PX<MODE, 0x47, 12>;

pub type PG13<MODE> = PX<MODE, 0x47, 13>;

pub type PG14<MODE> = PX<MODE, 0x47, 14>;

pub type PG15<MODE> = PX<MODE, 0x47, 15>;

} // verus!
