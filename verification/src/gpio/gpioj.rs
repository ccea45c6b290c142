//! GPIO port J: its peripheral handle, its pins, and the split into pins.
use crate::gpio::{Floating, GpioExt, Input, PX, PXx};
use vstd::prelude::*;

verus! {

/// The GPIOJ peripheral.
pub struct GPIOJ;

/// GPIO parts
pub struct Parts {
    /// Pin
    pub pj0: PJ0<Input<Floating>>,
    /// Pin
    pub pj1: PJ1<Input<Floating>>,
    /// Pin
    pub pj2: PJ2<Input<Floating>>,
    /// Pin
    pub pj3: PJ3<Input<Floating>>,
    /// Pin
    pub pj4: PJ4<Input<Floating>>,
    /// Pin
    pub pj5: PJ5<Input<Floating>>,
    /// Pin
    pub pj6: PJ6<Input<Floating>>,
    /// Pin
    pub pj7: PJ7<Input<Floating>>,
    /// Pin
    pub pj8: PJ8<Input<Floating>>,
    /// Pin
    pub pj9: PJ9<Input<Floating>>,
    /// Pin
    pub pj10: PJ10<Input<Floating>>,
    /// Pin
    pub pj11: PJ11<Input<Floating>>,
    /// Pin
    pub pj12: PJ12<Input<Floating>>,
    /// Pin
    pub pj13: PJ13<Input<Floating>>,
    /// Pin
    pub pj14: PJ14<Input<Floating>>,
    /// Pin
    pub pj15: PJ15<Input<Floating>>,
}

impl GpioExt for GPIOJ {
    type Parts = Parts;

    fn split(self) -> Parts {
        Parts {
            pj0: PJ0::new(),
            pj1: PJ1::new(),
            pj2: PJ2::new(),
            pj3: PJ3::new(),
            pj4: PJ4::new(),
            pj5: PJ5::new(),
            pj6: PJ6::new(),
            pj7: PJ7::new(),
            pj8: PJ8::new(),
            pj9: PJ9::new(),
            pj10: PJ10::new(),
            pj11: PJ11::new(),
            pj12: PJ12::new(),
            pj13: PJ13::new(),
            pj14: PJ14::new(),
            pj15: PJ15::new(),
        }
    }
}

/// Pin of port J with the pin number erased.
pub type PJn<MODE> = PXx<MODE, 0x4a>;

pub type PJ0<MODE> = PX<MODE, 0x4a, 0>;

pub type PJ1<MODE> = PX<MODE, 0x4a, 1>;

pub type PJ2<MODE> = PX<MODE, 0x4a, 2>;

pub type PJ3<MODE> = PX<MODE, 0x4a, 3>;

pub type PJ4<MODE> = PX<MODE, 0x4a, 4>;

pub type PJ5<MODE> = PX<MODE, 0x4a, 5>;

pub type PJ6<MODE> = PX<MODE, 0x4a, 6>;

pub type PJ7<MODE> = PX<MODE, 0x4a, 7>;

pub type PJ8<MODE> = PX<MODE, 0x4a, 8>;

pub type PJ9<MODE> = PX<MODE, 0x4a, 9>;

pub type PJ10<MODE> = PX<MODE, 0x4a, 10>;

pub type PJ11<MODE> = PX<MODE, 0x4a, 11>;

pub type PJ12<MODE> = PX<MODE, 0x4a, 12>;

pub type PJ13<MODE> = PX<MODE, 0x4a, 13>;

pub type PJ14<MODE> = PX<MODE, 0x4a, 14>;

pub type PJ15<MODE> = PX<MODE, 0x4a, 15>;

} // verus!
