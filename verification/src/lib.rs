//! Values that somebody vouched for.
//!
//! A [`SafeHolder`] holds a value together with the promise that whoever made
//! the holder checked the safety requirements of that value. The two const
//! parameters decide how the value may be used afterwards:
//! - `WRITE_ONCE`: when `false`, the value may be replaced with `set`;
//! - `READ_ONCE`: when `false`, the value may be read in place (`as_ref`,
//!   `Deref`, `==`, ordering, `clone`); otherwise only `take` gives it out.
//!
//! Markers are holders of data types that carry no data
//! ([`NonDataMarker`]); they stand for a fact such as "interrupts are off".
//!
//! What this crate does not offer, and why:
//! - `vouch_for`, `vouch`, `clone` and `set` are safe functions, not `unsafe
//!   fn`: the promise that a caller checked the safety requirements is a
//!   matter of convention here, not of the compiler.
//! - The const parameters have no defaults: write `SafeHolder<T, true, true>`
//!   where `SafeHolder<T>` was meant.
//! - No function is `const fn`, and the holder has no fixed layout attribute.
//! - The holder implements neither `UpperHex`, `LowerHex` nor `Binary`.
//! - The crate is not `no_std`.
//! - The `unsafe_marker!` macro, which needs the `paste` crate, lives in a
//!   companion crate beside this one.

mod holder;
mod marker;

pub use holder::SafeHolder;
pub use marker::{assert_marker, take_marker, NonDataMarker};

