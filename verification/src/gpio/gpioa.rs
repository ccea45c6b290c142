//! GPIO port A: its peripheral handle, its pins, and the split into pins.
use crate::gpio::{Floating, GpioExt, Input, PX, PXx};
use vstd::prelude::*;

verus! {

/// The GPIOA peripheral.
pub struct GPIOA;

/// GPIO parts
pub struct Parts {
    /// Pin
    pub pa0: PA0<Input<Floating>>,
    /// Pin
    pub pa1: PA1<Input<Floating>>,
    /// Pin
    pub pa2: PA2<Input<Floating>>,
    /// Pin
    pub pa3: PA3<Input<Floating>>,
    /// Pin
    pub pa4: PA4<Input<Floating>>,
    /// Pin
    pub pa5: PA5<Input<Floating>>,
    /// Pin
    pub pa6: PA6<Input<Floating>>,
    /// Pin
    pub pa7: PA7<Input<Floating>>,
    /// Pin
    pub pa8: PA8<Input<Floating>>,
    /// Pin
    pub pa9: PA9<Input<Floating>>,
    /// Pin
    pub pa10: PA10<Input<Floating>>,
    /// Pin
    pub pa11: PA11<Input<Floating>>,
    /// Pin
    pub pa12: PA12<Input<Floating>>,
    /// Pin
    pub pa13: PA13<Input<Floating>>,
    /// Pin
    pub pa14: PA14<Input<Floating>>,
    /// Pin
    pub pa15: PA15<Input<Floating>>,
}

impl GpioExt for GPIOA {
    type Parts = Parts;

    fn split(self) -> Parts {
        Parts {
            pa0: PA0::new(),
            pa1: PA1::new(),
            pa2: PA2::new(),
            pa3: PA3::new(),
            pa4: PA4::new(),
            pa5: PA5::new(),
            pa6: PA6::new(),
            pa7: PA7::new(),
            pa8: PA8::new(),
            pa9: PA9::new(),
            pa10: PA10::new(),
            pa11: PA11::new(),
            pa12: PA12::new(),
            pa13: PA13::new(),
            pa14: PA14::new(),
            pa15: PA15::new(),
        }
    }
}

/// Pin of port A with the pin number erased.
pub type PAn<MODE> = PXx<MODE, 0x41>;

pub type PA0<MODE> = PX<MODE, 0x41, 0>;

pub type PA1<MODE> = PX<MODE, 0x41, 1>;

pub type PA2<MODE> = PX<MODE, 0x41, 2>;

pub type PA3<MODE> = PX<MODE, 0x41, 3>;

pub type PA4<MODE> = PX<MODE, 0x41, 4>;

pub type PA5<MODE> = PX<MODE, 0x41, 5>;

pub type PA6<MODE> = PX<MODE, 0x41, 6>;

pub type PA7<MODE> = PX<MODE, 0x41, 7>;

pub type PA8<MODE> = PX<MODE, 0x41, 8>;

pub type PA9<MODE> = PX<MODE, 0x41, 9>;

pub type PA10<MODE> = PX<MODE, 0x41, 10>;

pub type PA11<MODE> = PX<MODE, 0x41, 11>;

pub type PA12<MODE> = PX<MODE, 0x41, 12>;

pub type PA13<MODE> = PX<MODE, 0x41, 13>;

pub type PA14<MODE> = PX<MODE, 0x41, 14>;

pub type PA15<MODE> = PX<MODE, 0x41, 15>;

} // verus!
