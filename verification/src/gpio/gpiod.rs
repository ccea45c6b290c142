//! GPIO port D: its peripheral handle, its pins, and the split into pins.
use crate::gpio::{Floating, GpioExt, Input, PX, PXx};
use vstd::prelude::*;

verus! {

/// The GPIOD peripheral.
pub struct GPIOD;

/// GPIO parts
pub struct Parts {
    /// Pin
    pub pd0: PD0<Input<Floating>>,
    /// Pin
    pub pd1: PD1<Input<Floating>>,
    /// Pin
    pub pd2: PD2<Input<Floating>>,
    /// Pin
    pub pd3: PD3<Input<Floating>>,
    /// Pin
    pub pd4: PD4<Input<Floating>>,
    /// Pin
    pub pd5: PD5<Input<Floating>>,
    /// Pin
    pub pd6: PD6<Input<Floating>>,
    /// Pin
    pub pd7: PD7<Input<Floating>>,
    /// Pin
    pub pd8: PD8<Input<Floating>>,
    /// Pin
    pub pd9: PD9<Input<Floating>>,
    /// Pin
    pub pd10: PD10<Input<Floating>>,
    /// Pin
    pub pd11: PD11<Input<Floating>>,
    /// Pin
    pub pd12: PD12<Input<Floating>>,
    /// Pin
    pub pd13: PD13<Input<Floating>>,
    /// Pin
    pub pd14: PD14<Input<Floating>>,
    /// Pin
    pub pd15: PD15<Input<Floating>>,
}

impl GpioExt for GPIOD {
    type Parts = Parts;

    fn split(self) -> Parts {
        Parts {
            pd0: PD0::new(),
            pd1: PD1::new(),
            pd2: PD2::new(),
            pd3: PD3::new(),
            pd4: PD4::new(),
            pd5: PD5::new(),
            pd6: PD6::new(),
            pd7: PD7::new(),
            pd8: PD8::new(),
            pd9: PD9::new(),
            pd10: PD10::new(),
            pd11: PD11::new(),
            pd12: PD12::new(),
            pd13: PD13::new(),
            pd14: PD14::new(),
            pd15: PD15::new(),
        }
    }
}

/// Pin of port D with the pin number erased.
pub type PDn<MODE> = PXx<MODE, 0x44>;

pub type PD0<MODE> = PX<MODE, 0x44, 0>;

pub type PD1<MODE> = PX<MODE, 0x44, 1>;

pub type PD2<MODE> = PX<MODE, 0x44, 2>;

pub type PD3<MODE> = PX<MODE, 0x44, 3>;

pub type PD4<MODE> = PX<MODE, 0x44, 4>;

pub type PD5<MODE> = PX<MODE, 0x44, 5>;

pub type PD6<MODE> = PX<MODE, 0x44, 6>;

pub type PD7<MODE> = PX<MODE, 0x44, 7>;

pub type PD8<MODE> = PX<MODE, 0x44, 8>;

pub type PD9<MODE> = PX<MODE, 0x44, 9>;

pub type PD10<MODE> = PX<MODE, 0x44, 10>;

pub type PD11<MODE> = PX<MODE, 0x44, 11>;

pub type PD12<MODE> = PX<MODE, 0x44, 12>;

pub type PD13<MODE> = PX<MODE, 0x44, 13>;

pub type PD14<MODE> = PX<MODE, 0x44, 14>;

pub type PD15<MODE> = PX<MODE, 0x44, 15>;

} // verus!
