# safevalue

A `SafeHolder<T, WRITE_ONCE, READ_ONCE>` holds a value together with the
promise that whoever made the holder checked the value's safety requirements.
`WRITE_ONCE == false` allows `set`; `READ_ONCE == false` allows reading in
place (`as_ref`, `Deref`, `==`, ordering, `clone`); `take` always gives the
value back. Markers are holders of data-less types (`NonDataMarker`).

Layout:
- `src/holder.rs`: the holder, its operations with their contracts, and the
  laws proved of them (a holder is its value; `take` returns the last value
  written; clones are independent; markers of one type are interchangeable;
  ordering and equality follow the values).
- `src/marker.rs`: `NonDataMarker`, `assert_marker`, `take_marker`.
- `app/lib.rs`: the `unsafe_marker!` macro, built with `paste`.
- `tests/holder.rs`: tests.

Design notes: the constructors, `clone`
and `set` are safe functions rather than `unsafe fn`; the const parameters
have no defaults; nothing is `const fn`; there is no `#[repr(transparent)]`;
the hex and binary formatting impls are absent; the crate is not `no_std`.
