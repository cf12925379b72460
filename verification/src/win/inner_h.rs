//! The hook on the inner height of the window.

use vstd::prelude::*;
use super::Error;

verus! {

/// What reading the window's inner height found.
pub enum InnerReading<T, V> {
    /// There is no window.
    NoWindow,
    /// The window refused the reading, for the reason held.
    Failed(V),
    /// What was read is no number.
    NotNumber,
    /// The height.
    Height(T),
}

/// What the hook shows for a reading: the height, or the error that says
/// what was in the way.
pub fn use_inner_h<T, V>(reading: InnerReading<T, V>) -> (value: Option<Result<T, Error<V>>>)
    ensures
        value == Some(
            match reading {
                InnerReading::NoWindow => Err::<T, Error<V>>(Error::MissingWindow),
                InnerReading::Failed(e) => Err(Error::PropertyAccessFailure(e)),
                InnerReading::NotNumber => Err(Error::UnsupportedConvertionToF64),
                InnerReading::Height(h) => Ok(h),
            },
        ),
{
    match reading {
        InnerReading::NoWindow => Some(Err(Error::MissingWindow)),
        InnerReading::Failed(e) => Some(Err(Error::PropertyAccessFailure(e))),
        InnerReading::NotNumber => Some(Err(Error::UnsupportedConvertionToF64)),
        InnerReading::Height(h) => Some(Ok(h)),
    }
}

} // verus!
