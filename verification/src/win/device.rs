//! The class of device, judged by the width of the window.

use vstd::prelude::*;
use super::Error;

verus! {

#[derive(Debug, Clone, Copy, PartialEq, Eq, Structural)]
pub enum Device {
    Laptop4K,
    LaptopL,
    LaptopS,
    Tablet,
    MobileL,
    MobileM,
    MobileS,
}

impl Device {
    /// The least width, in whole pixels, at which a window is of this class.
    pub open spec fn least_width(self) -> nat {
        match self {
            Device::Laptop4K => 2560,
            Device::LaptopL => 1440,
            Device::LaptopS => 1024,
            Device::Tablet => 768,
            Device::MobileL => 425,
            Device::MobileM => 375,
            Device::MobileS => 0,
        }
    }

    /// The class of a window of the given width: the widest class whose
    /// least width the window reaches.
    pub open spec fn of_width_spec(w: u32) -> Device {
        if w >= 2560 {
            Device::Laptop4K
        } else if w >= 1440 {
            Device::LaptopL
        } else if w >= 1024 {
            Device::LaptopS
        } else if w >= 768 {
            Device::Tablet
        } else if w >= 425 {
            Device::MobileL
        } else if w >= 375 {
            Device::MobileM
        } else {
            Device::MobileS
        }
    }

    /// The class of a window that is `w` whole pixels wide.
    pub fn of_width(w: u32) -> (d: Device)
        ensures
            d == Device::of_width_spec(w),
    {
        if w >= 2560 {
            Device::Laptop4K
        } else if w >= 1440 {
            Device::LaptopL
        } else if w >= 1024 {
            Device::LaptopS
        } else if w >= 768 {
            Device::Tablet
        } else if w >= 425 {
            Device::MobileL
        } else if w >= 375 {
            Device::MobileM
        } else {
            Device::MobileS
        }
    }

    /// A window belongs to the one class whose least width it reaches while
    /// it reaches the least width of no wider class, and a wider window is
    /// never of a narrower class.
    pub proof fn of_width_is_widest_reached(w: u32, v: u32, d: Device)
        ensures
            Device::of_width_spec(w).least_width() <= w,
            d.least_width() <= w ==> d.least_width() <= Device::of_width_spec(w).least_width(),
            w <= v ==> Device::of_width_spec(w).least_width() <= Device::of_width_spec(
                v,
            ).least_width(),
    {
    }
}

/// What the device hook shows for what the width hook shows: nothing while
/// the width is not known, the width's error if it has one, and else the
/// class of a window that wide. The width is in whole pixels.
pub fn use_device<V>(inner_w: Option<Result<u32, Error<V>>>) -> (device: Option<
    Result<Device, Error<V>>,
>)
    ensures
        device == match inner_w {
            None => None,
            Some(Err(e)) => Some(Err(e)),
            Some(Ok(w)) => Some(Ok(Device::of_width_spec(w))),
        },
{
    match inner_w {
        None => None,
        Some(Err(e)) => Some(Err(e)),
        Some(Ok(w)) => Some(Ok(Device::of_width(w))),
    }
}

} // verus!
