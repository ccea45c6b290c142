//! GPIO port B: its peripheral handle, its pins, and the split into pins.
use crate::gpio::{Floating, GpioExt, Input, PX, PXx};
use vstd::prelude::*;

verus! {

/// The GPIOB peripheral.
pub struct GPIOB;

/// GPIO parts
pub struct Parts {
    /// Pin
    pub pb0: PB0<Input<Floating>>,
    /// Pin
    pub pb1: PB1<Input<Floating>>,
    /// Pin
    pub pb2: PB2<Input<Floating>>,
    /// Pin
    pub pb3: PB3<Input<Floating>>,
    /// Pin
    pub pb4: PB4<Input<Floating>>,
    /// Pin
    pub pb5: PB5<Input<Floating>>,
    /// Pin
    pub pb6: PB6<Input<Floating>>,
    /// Pin
    pub pb7: PB7<Input<Floating>>,
    /// Pin
    pub pb8: PB8<Input<Floating>>,
    /// Pin
    pub pb9: PB9<Input<Floating>>,
    /// Pin
    pub pb10: PB10<Input<Floating>>,
    /// Pin
    pub pb11: PB11<Input<Floating>>,
    /// Pin
    pub pb12: PB12<Input<Floating>>,
    /// Pin
    pub pb13: PB13<Input<Floating>>,
    /// Pin
    pub pb14: PB14<Input<Floating>>,
    /// Pin
    pub pb15: PB15<Input<Floating>>,
}

impl GpioExt for GPIOB {
    type Parts = Parts;

    fn split(self) -> Parts {
        Parts {
            pb0: PB0::new(),
            pb1: PB1::new(),
            pb2: PB2::new(),
            pb3: PB3::new(),
            pb4: PB4::new(),
            pb5: PB5::new(),
            pb6: PB6::new(),
            pb7: PB7::new(),
            pb8: PB8::new(),
            pb9: PB9::new(),
            pb10: PB10::new(),
            pb11: PB11::new(),
            pb12: PB12::new(),
            pb13: PB13::new(),
            pb14: PB14::new(),
            pb15: PB15::new(),
        }
    }
}

/// Pin of port B with the pin number erased.
pub type PBn<MODE> = PXx<MODE, 0x42>;

pub type PB0<MODE> = PX<MODE, 0x42, 0>;

pub type PB1<MODE> = PX<MODE, 0x42, 1>;

pub type PB2<MODE> = PX<MODE, 0x42, 2>;

pub type PB3<MODE> = PX<MODE, 0x42, 3>;

pub type PB4<MODE> = PX<MODE, 0x42, 4>;

pub type PB5<MODE> = PX<MODE, 0x42, 5>;

pub type PB6<MODE> = PX<MODE, 0x42, 6>;

pub type PB7<MODE> = PX<MODE, 0x42, 7>;

pub type PB8<MODE> = PX<MODE, 0x42, 8>;

pub type PB9<MODE> = PX<MODE, 0x42, 9>;

pub type PB10<MODE> = PX<MODE, 0x42, 10>;

pub type PB11<MODE> = PX<MODE, 0x42, 11>;

pub type PB12<MODE> = PX<MODE, 0x42, 12>;

pub type PB13<MODE> = PX<MODE, 0x42, 13>;

pub type PB14<MODE> = PX<MODE, 0x42, 14>;

pub type PB15<MODE> = PX<MODE, 0x42, 15>;

} // verus!
