use vstd::prelude::*;

use crate::holder::SafeHolder;

verus! {

/// A data type that holds no run-time data and serves as the type of a marker.
///
/// Implement it only for types that are distinct from each other (not `()`
/// for every marker): all holders of one marker type are interchangeable.
pub trait NonDataMarker: Sized {
    /// The value that `SafeHolder::vouch` puts into a new marker.
    const NEW_MARKER: Self;
}

impl NonDataMarker for () {
    const NEW_MARKER: Self = ();
}

/// States that the code around the call relies on `marker`, without using it
/// up. It does nothing at run time.
pub fn assert_marker<T, const WRITE_ONCE: bool, const READ_ONCE: bool>(
    marker: &SafeHolder<T, WRITE_ONCE, READ_ONCE>,
) {
}

/// States that the code around the call relies on `marker` and uses it up:
/// the guarantee it stands for no longer holds afterwards. It does nothing
/// else at run time.
pub fn take_marker<T, const WRITE_ONCE: bool, const READ_ONCE: bool>(
    marker: SafeHolder<T, WRITE_ONCE, READ_ONCE>,
) {
}

} // verus!
