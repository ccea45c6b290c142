//! GPIO port C: its peripheral handle, its pins, and the split into pins.
use crate::gpio::{Floating, GpioExt, Input, PX, PXx};
use vstd::prelude::*;

verus! {

/// The GPIOC peripheral.
pub struct GPIOC;

/// GPIO parts
pub struct Parts {
    /// Pin
    pub pc0: PC0<Input<Floating>>,
    /// Pin
    pub pc1: PC1<Input<Floating>>,
    /// Pin
    pub pc2: PC2<Input<Floating>>,
    /// Pin
    pub pc3: PC3<Input<Floating>>,
    /// Pin
    pub pc4: PC4<Input<Floating>>,
    /// Pin
    pub pc5: PC5<Input<Floating>>,
    /// Pin
    pub pc6: PC6<Input<Floating>>,
    /// Pin
    pub pc7: PC7<Input<Floating>>,
    /// Pin
    pub pc8: PC8<Input<Floating>>,
    /// Pin
    pub pc9: PC9<Input<Floating>>,
    /// Pin
    pub pc10: PC10<Input<Floating>>,
    /// Pin
    pub pc11: PC11<Input<Floating>>,
    /// Pin
    pub pc12: PC12<Input<Floating>>,
    /// Pin
    pub pc13: PC13<Input<Floating>>,
    /// Pin
    pub pc14: PC14<Input<Floating>>,
    /// Pin
    pub pc15: PC15<Input<Floating>>,
}

impl GpioExt for GPIOC {
    type Parts = Parts;

    fn split(self) -> Parts {
        Parts {
            pc0: PC0::new(),
            pc1: PC1::new(),
            pc2: PC2::new(),
            pc3: PC3::new(),
            pc4: PC4::new(),
            pc5: PC5::new(),
            pc6: PC6::new(),
            pc7: PC7::new(),
            pc8: PC8::new(),
            pc9: PC9::new(),
            pc10: PC10::new(),
            pc11: PC11::new(),
            pc12: PC12::new(),
            pc13: PC13::new(),
            pc14: PC14::new(),
            pc15: PC15::new(),
        }
    }
}

/// Pin of port C with the pin number erased.
pub type PCn<MODE> = PXx<MODE, 0x43>;

pub type PC0<MODE> = PX<MODE, 0x43, 0>;

pub type PC1<MODE> = PX<MODE, 0x43, 1>;

pub type PC2<MODE> = PX<MODE, 0x43, 2>;

pub type PC3<MODE> = PX<MODE, 0x43, 3>;

pub type PC4<MODE> = PX<MODE, 0x43, 4>;

pub type PC5<MODE> = PX<MODE, 0x43, 5>;

pub type PC6<MODE> = PX<MODE, 0x43, 6>;

pub type PC7<MODE> = PX<MODE, 0x43, 7>;

pub type PC8<MODE> = PX<MODE, 0x43, 8>;

pub type PC9<MODE> = PX<MODE, 0x43, 9>;

pub type PC10<MODE> = PX<MODE, 0x43, 10>;

pub type PC11<MODE> = PX<MODE, 0x43, 11>;

pub type PC12<MODE> = PX<MODE, 0x43, 12>;

pub type PC13<MODE> = PX<MODE, 0x43, 13>;

pub type PC14<MODE> = PX<MODE, 0x43, 14>;

pub type PC15<MODE> = PX<MODE, 0x43, 15>;

} // verus!
