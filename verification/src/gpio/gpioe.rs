//! GPIO port E: its peripheral handle, its pins, and the split into pins.
use crate::gpio::{Floating, GpioExt, Input, PX, PXx};
use vstd::prelude::*;

verus! {

/// The GPIOE peripheral.
pub struct GPIOE;

/// GPIO parts
pub struct Parts {
    /// Pin
    pub pe0: PE0<Input<Floating>>,
    /// Pin
    pub pe1: PE1<Input<Floating>>,
    /// Pin
    pub pe2: PE2<Input<Floating>>,
    /// Pin
    pub pe3: PE3<Input<Floating>>,
    /// Pin
    pub pe4: PE4<Input<Floating>>,
    /// Pin
    pub pe5: PE5<Input<Floating>>,
    /// Pin
    pub pe6: PE6<Input<Floating>>,
    /// Pin
    pub pe7: PE7<Input<Floating>>,
    /// Pin
    pub pe8: PE8<Input<Floating>>,
    /// Pin
    pub pe9: PE9<Input<Floating>>,
    /// Pin
    pub pe10: PE10<Input<Floating>>,
    /// Pin
    pub pe11: PE11<Input<Floating>>,
    /// Pin
    pub pe12: PE12<Input<Floating>>,
    /// Pin
    pub pe13: PE13<Input<Floating>>,
    /// Pin
    pub pe14: PE14<Input<Floating>>,
    /// Pin
    pub pe15: PE15<Input<Floating>>,
}

impl GpioExt for GPIOE {
    type Parts = Parts;

    fn split(self) -> Parts {
        Parts {
            pe0: PE0::new(),
            pe1: PE1::new(),
            pe2: PE2::new(),
            pe3: PE3::new(),
            pe4: PE4::new(),
            pe5: PE5::new(),
            pe6: PE6::new(),
            pe7: PE7::new(),
            pe8: PE8::new(),
            pe9: PE9::new(),
            pe10: PE10::new(),
            pe11: PE11::new(),
            pe12: PE12::new(),
            pe13: PE13::new(),
            pe14: PE14::new(),
            pe15: PE15::new(),
        }
    }
}

/// Pin of port E with the pin number erased.
pub type PEn<MODE> = PXx<MODE, 0x45>;

pub type PE0<MODE> = PX<MODE, 0x45, 0>;

pub type PE1<MODE> = PX<MODE, 0x45, 1>;

pub type PE2<MODE> = PX<MODE, 0x45, 2>;

pub type PE3<MODE> = PX<MODE, 0x45, 3>;

pub type PE4<MODE> = PX<MODE, 0x45, 4>;

pub type PE5<MODE> = PX<MODE, 0x45, 5>;

pub type PE6<MODE> = PX<MODE, 0x45, 6>;

pub type PE7<MODE> = PX<MODE, 0x45, 7>;

pub type PE8<MODE> = PX<MODE, 0x45, 8>;

pub type PE9<MODE> = PX<MODE, 0x45, 9>;

pub type PE10<MODE> = PX<MODE, 0x45, 10>;

pub type PE11<MODE> = PX<MODE, 0x45, 11>;

pub type PE12<MODE> = PX<MODE, 0x45, 12>;

pub type PE13<MODE> = PX<MODE, 0x45, 13>;

pub type PE14<MODE> = PX<MODE, 0x45, 14>;

pub type PE15<MODE> = PX<MODE, 0x45, 15>;

} // verus!
