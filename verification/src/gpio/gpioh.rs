//! GPIO port H: its peripheral handle, its pins, and the split into pins.
use crate::gpio::{Floating, GpioExt, Input, PX, PXx};
use vstd::prelude::*;

verus! {

/// The GPIOH peripheral.
pub struct GPIOH;

/// GPIO parts
pub struct Parts {
    /// Pin
    pub ph0: PH0<Input<Floating>>,
    /// Pin
    pub ph1: PH1<Input<Floating>>,
    /// Pin
    pub ph2: PH2<Input<Floating>>,
    /// Pin
    pub ph3: PH3<Input<Floating>>,
    /// Pin
    pub ph4: PH4<Input<Floating>>,
    /// Pin
    pub ph5: PH5<Input<Floating>>,
    /// Pin
    pub ph6: PH6<Input<Floating>>,
    /// Pin
    pub ph7: PH7<Input<Floating>>,
    /// Pin
    pub ph8: PH8<Input<Floating>>,
    /// Pin
    pub ph9: PH9<Input<Floating>>,
    /// Pin
    pub ph10: PH10<Input<Floating>>,
    /// Pin
    pub ph11: PH11<Input<Floating>>,
    /// Pin
    pub ph12: PH12<Input<Floating>>,
    /// Pin
    pub ph13: PH13<Input<Floating>>,
    /// Pin
    pub ph14: PH14<Input<Floating>>,
    /// Pin
    pub ph15: PH15<Input<Floating>>,
}

impl GpioExt for GPIOH {
    type Parts = Parts;

    fn split(self) -> Parts {
        Parts {
            ph0: PH0::new(),
            ph1: PH1::new(),
            ph2: PH2::new(),
            ph3: PH3::new(),
            ph4: PH4::new(),
            ph5: PH5::new(),
            ph6: PH6::new(),
            ph7: PH7::new(),
            ph8: PH8::new(),
            ph9: PH9::new(),
            ph10: PH10::new(),
            ph11: PH11::new(),
            ph12: PH12::new(),
            ph13: PH13::new(),
            ph14: PH14::new(),
            ph15: PH15::new(),
        }
    }
}

/// Pin of port H with the pin number erased.
pub type PHn<MODE> = PXx<MODE, 0x48>;

pub type PH0<MODE> = PX<MODE, 0x48, 0>;

pub type PH1<MODE> = PX<MODE, 0x48, 1>;

pub type PH2<MODE> = PX<MODE, 0x48, 2>;

pub type PH3<MODE> = PX<MODE, 0x48, 3>;

pub type PH4<MODE> = PX<MODE, 0x48, 4>;

pub type PH5<MODE> = PX<MODE, 0x48, 5>;

pub type PH6<MODE> = PX<MODE, 0x48, 6>;

pub type PH7<MODE> = PX<MODE, 0x48, 7>;

pub type PH8<MODE> = PX<MODE, 0x48, 8>;

pub type PH9<MODE> = PX<MODE, 0x48, 9>;

pub type PH10<MODE> = PX<MODE, 0x48, 10>;

pub type PH11<MODE> = PX<MODE, 0x48, 11>;

pub type PH12<MODE> = PX<MODE, 0x48, 12>;

pub type PH13<MODE> = PX<MODE, 0x48, 13>;

pub type PH14<MODE> = PX<MODE, 0x48, 14>;

pub type PH15<MODE> = PX<MODE, 0x48, 15>;

} // verus!
