//! GPIO port K: its peripheral handle, its pins, and the split into pins.
use crate::gpio::{Floating, GpioExt, Input, PX, PXx};
use vstd::prelude::*;

verus! {

/// The GPIOK peripheral.
pub struct GPIOK;

/// GPIO parts
pub struct Parts {
    /// Pin
    pub pk0: PK0<Input<Floating>>,
    /// Pin
    pub pk1: PK1<Input<Floating>>,
    /// Pin
    pub pk2: PK2<Input<Floating>>,
    /// Pin
    pub pk3: PK3<Input<Floating>>,
    /// Pin
    pub pk4: PK4<Input<Floating>>,
    /// Pin
    pub pk5: PK5<Input<Floating>>,
    /// Pin
    pub pk6: PK6<Input<Floating>>,
    /// Pin
    pub pk7: PK7<Input<Floating>>,
}

impl GpioExt for GPIOK {
    type Parts = Parts;

    fn split(self) -> Parts {
        Parts {
            pk0: PK0::new(),
            pk1: PK1::new(),
            pk2: PK2::new(),
            pk3: PK3::new(),
            pk4: PK4::new(),
            pk5: PK5::new(),
            pk6: PK6::new(),
            pk7: PK7::new(),
        }
    }
}

/// Pin of port K with the pin number erased.
pub type PKn<MODE> = PXx<MODE, 0x4b>;

pub type PK0<MODE> = PX<MODE, 0x4b, 0>;

pub type PK1<MODE> = PX<MODE, 0x4b, 1>;

pub type PK2<MODE> = PX<MODE, 0x4b, 2>;

pub type PK3<MODE> = PX<MODE, 0x4b, 3>;

pub type PK4<MODE> = PX<MODE, 0x4b, 4>;

pub type PK5<MODE> = PX<MODE, 0x4b, 5>;

pub type PK6<MODE> = PX<MODE, 0x4b, 6>;

pub type PK7<MODE> = PX<MODE, 0x4b, 7>;

} // verus!
