//! GPIO port F: its peripheral handle, its pins, and the split into pins.
use crate::gpio::{Floating, GpioExt, Input, PX, PXx};
use vstd::prelude::*;

verus! {

/// The GPIOF peripheral.
pub struct GPIOF;

/// GPIO parts
pub struct Parts {
    /// Pin
    pub pf0: PF0<Input<Floating>>,
    /// Pin
    pub pf1: PF1<Input<Floating>>,
    /// Pin
    pub pf2: PF2<Input<Floating>>,
    /// Pin
    pub pf3: PF3<Input<Floating>>,
    /// Pin
    pub pf4: PF4<Input<Floating>>,
    /// Pin
    pub pf5: PF5<Input<Floating>>,
    /// Pin
    pub pf6: PF6<Input<Floating>>,
    /// Pin
    pub pf7: PF7<Input<Floating>>,
    /// Pin
    pub pf8: PF8<Input<Floating>>,
    /// Pin
    pub pf9: PF9<Input<Floating>>,
    /// Pin
    pub pf10: PF10<Input<Floating>>,
    /// Pin
    pub pf11: PF11<Input<Floating>>,
    /// Pin
    pub pf12: PF12<Input<Floating>>,
    /// Pin
    pub pf13: PF13<Input<Floating>>,
    /// Pin
    pub pf14: PF14<Input<Floating>>,
    /// Pin
    pub pf15: PF15<Input<Floating>>,
}

impl GpioExt for GPIOF {
    type Parts = Parts;

    fn split(self) -> Parts {
        Parts {
            pf0: PF0::new(),
            pf1: PF1::new(),
            pf2: PF2::new(),
            pf3: PF3::new(),
            pf4: PF4::new(),
            pf5: PF5::new(),
            pf6: PF6::new(),
            pf7: PF7::new(),
            pf8: PF8::new(),
            pf9: PF9::new(),
            pf10: PF10::new(),
            pf11: PF11::new(),
            pf12: PF12::new(),
            pf13: PF13::new(),
            pf14: PF14::new(),
            pf15: PF15::new(),
        }
    }
}

/// Pin of port F with the pin number erased.
pub type PFn<MODE> = PXx<MODE, 0x46>;

pub type PF0<MODE> = PX<MODE, 0x46, 0>;

pub type PF1<MODE> = PX<MODE, 0x46, 1>;

pub type PF2<MODE> = PX<MODE, 0x46, 2>;

pub type PF3<MODE> = PX<MODE, 0x46, 3>;

pub type PF4<MODE> = PX<MODE, 0x46, 4>;

pub type PF5<MODE> = PX<MODE, 0x46, 5>;

pub type PF6<MODE> = PX<MODE, 0x46, 6>;

pub type PF7<MODE> = PX<MODE, 0x46, 7>;

pub type PF8<MODE> = PX<MODE, 0x46, 8>;

pub type PF9<MODE> = PX<MODE, 0x46, 9>;

pub type PF10<MODE> = PX<MODE, 0x46, 10>;

pub type PF11<MODE> = PX<MODE, 0x46, 11>;

pub type PF12<MODE> = PX<MODE, 0x46, 12>;

pub type PF13<MODE> = PX<MODE, 0x46, 13>;

pub type PF14<MODE> = PX<MODE, 0x46, 14>;

pub type PF15<MODE> = PX<MODE, 0x46, 15>;

} // verus!
