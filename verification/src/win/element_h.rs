//! The hook on the height of an element.

use vstd::prelude::*;
use super::{element_value, ElementReading, Error};

verus! {

/// What the hook shows for a reading of the element's height.
pub fn use_element_h<T, V>(reading: ElementReading<T>) -> (value: Option<Result<T, Error<V>>>)
    ensures
        value == element_value::<T, V>(reading),
{
    match reading {
        ElementReading::NoWindow => Some(Err(Error::MissingWindow)),
        ElementReading::NoDocument => Some(Err(Error::MissingDocument)),
        ElementReading::NoElement => None,
        ElementReading::Measured(h) => Some(Ok(h)),
    }
}

} // verus!
