//! The hook on the pointer's place along the screen's horizontal axis.

use vstd::prelude::*;
use super::Error;

verus! {

/// What the hook shows when an event of the pointer comes in: the place that
/// the event gives.
pub fn use_cursor_screen_x<V>(screen_x: i32) -> (value: Option<Result<i32, Error<V>>>)
    ensures
        value == Some(Ok::<i32, Error<V>>(screen_x)),
{
    Some(Ok(screen_x))
}

} // verus!
