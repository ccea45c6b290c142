//! GPIO port I: its peripheral handle, its pins, and the split into pins.
use crate::gpio::{Floating, GpioExt, Input, PX, PXx};
use vstd::prelude::*;

verus! {

/// The GPIOI peripheral.
pub struct GPIOI;

/// GPIO parts
pub struct Parts {
    /// Pin
    pub pi0: PI0<Input<Floating>>,
    /// Pin
    pub pi1: PI1<Input<Floating>>,
    /// Pin
    pub pi2: PI2<Input<Floating>>,
    /// Pin
    pub pi3: PI3<Input<Floating>>,
    /// Pin
    pub pi4: PI4<Input<Floating>>,
    /// Pin
    pub pi5: PI5<Input<Floating>>,
    /// Pin
    pub pi6: PI6<Input<Floating>>,
    /// Pin
    pub pi7: PI7<Input<Floating>>,
    /// Pin
    pub pi8: PI8<Input<Floating>>,
    /// Pin
    pub pi9: PI9<Input<Floating>>,
    /// Pin
    pub pi10: PI10<Input<Floating>>,
    /// Pin
    pub pi11: PI11<Input<Floating>>,
    /// Pin
    pub pi12: PI12<Input<Floating>>,
    /// Pin
    pub pi13: PI13<Input<Floating>>,
    /// Pin
    pub pi14: PI14<Input<Floating>>,
    /// Pin
    pub pi15: PI15<Input<Floating>>,
}

impl GpioExt for GPIOI {
    type Parts = Parts;

    fn split(self) -> Parts {
        Parts {
            pi0: PI0::new(),
            pi1: PI1::new(),
            pi2: PI2::new(),
            pi3: PI3::new(),
            pi4: PI4::new(),
            pi5: PI5::new(),
            pi6: PI6::new(),
            pi7: PI7::new(),
            pi8: PI8::new(),
            pi9: PI9::new(),
            pi10: PI10::new(),
            pi11: PI11::new(),
            pi12: PI12::new(),
            pi13: PI13::new(),
            pi14: PI14::new(),
            pi15: PI15::new(),
        }
    }
}

/// Pin of port I with the pin number erased.
pub type PIn<MODE> = PXx<MODE, 0x49>;

pub type PI0<MODE> = PX<MODE, 0x49, 0>;

pub type PI1<MODE> = PX<MODE, 0x49, 1>;

pub type PI2<MODE> = PX<MODE, 0x49, 2>;

pub type PI3<MODE> = PX<MODE, 0x49, 3>;

pub type PI4<MODE> = PX<MODE, 0x49, 4>;

pub type PI5<MODE> = PX<MODE, 0x49, 5>;

pub type PI6<MODE> = PX<MODE, 0x49, 6>;

pub type PI7<MODE> = PX<MODE, 0x49, 7>;

pub type PI8<MODE> = PX<MODE, 0x49, 8>;

pub type PI9<MODE> = PX<MODE, 0x49, 9>;

pub type PI10<MODE> = PX<MODE, 0x49, 10>;

pub type PI11<MODE> = PX<MODE, 0x49, 11>;

pub type PI12<MODE> = PX<MODE, 0x49, 12>;

pub type PI13<MODE> = PX<MODE, 0x49, 13>;

pub type PI14<MODE> = PX<MODE, 0x49, 14>;

pub type PI15<MODE> = PX<MODE, 0x49, 15>;

} // verus!
