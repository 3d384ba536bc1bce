use vstd::prelude::*;
use vstd::std_specs::cmp::OrdSpec;
use vstd::std_specs::cmp::PartialEqSpec;
use vstd::std_specs::cmp::PartialOrdSpec;

use crate::marker::NonDataMarker;

verus! {

/// A value together with the promise that its safety requirements were
/// checked by whoever built the holder.
///
/// The fields are private: a holder comes only from `vouch_for`, `vouch` or
/// `clone`.
#[derive(Debug)]
pub struct SafeHolder<T, const WRITE_ONCE: bool, const READ_ONCE: bool> {
    data: T,
    sealed: core::marker::PhantomData<Sealed>,
}

/// Marks the holder as made by this library.
#[derive(Debug)]
struct Sealed {}

impl<T, const WRITE_ONCE: bool, const READ_ONCE: bool> View for SafeHolder<T, WRITE_ONCE, READ_ONCE> {
    type V = T;

    /// The value that the holder vouches for.
    closed spec fn view(&self) -> T {
        self.data
    }
}

impl<T, const WRITE_ONCE: bool, const READ_ONCE: bool> SafeHolder<T, WRITE_ONCE, READ_ONCE> {
    /// Makes a holder that vouches for `data`.
    ///
    /// The caller is the one who checked the safety requirements of `data`.
    #[inline(always)]
    pub fn vouch_for(data: T) -> (r: Self)
        ensures
            r@ == data,
    {
        SafeHolder { data, sealed: core::marker::PhantomData }
    }

    /// Uses the holder up and gives back the value it vouched for.
    #[inline(always)]
    pub fn take(self) -> (r: T)
        ensures
            r == self@,
    {
        self.data
    }

    /// Uses the holder up without reading it, after an operation that broke
    /// the guarantee it stood for.
    #[inline(always)]
    pub fn invalidate(self) {
    }

    /// States that the code around the call relies on the guarantee of the
    /// holder. It does nothing at run time.
    #[inline(always)]
    pub fn rely_on(&self) {
    }

    /// Answers whether the guarantee of the holder may be trusted; a holder
    /// exists only where it may, so the answer is always `true`.
    #[inline(always)]
    pub fn trust(&self) -> (r: bool)
        ensures
            r,
    {
        true
    }

    /// The holder carries nothing besides the value it vouches for: two
    /// holders with the same value are the same holder.
    pub proof fn lemma_view_determines_holder(a: Self, b: Self)
        requires
            a@ == b@,
        ensures
            a == b,
    {
    }

    /// `take` gives back the last value written: a holder made by
    /// `vouch_for(first)` and then given `set(writes[0])`, ...,
    /// `set(writes[n - 1])` vouches, at the end, for `writes[n - 1]`, or for
    /// `first` when nothing was written. `states[i]` is the holder after the
    /// first `i` writes, as the contracts of `vouch_for` and `set` leave it.
    pub proof fn lemma_take_returns_last_write(states: Seq<Self>, first: T, writes: Seq<T>)
        requires
            states.len() == writes.len() + 1,
            states[0]@ == first,
            forall|i: int| 0 <= i < writes.len() ==> #[trigger] states[i + 1]@ == writes[i],
        ensures
            states.last()@ == (if writes.len() == 0 {
                first
            } else {
                writes.last()
            }),
    {
        if writes.len() > 0 {
            assert(states[writes.len() - 1 + 1]@ == writes[writes.len() - 1]);
        }
    }
}

impl<T: Clone, const WRITE_ONCE: bool> SafeHolder<T, WRITE_ONCE, false> {
    /// Makes a second holder that vouches for a clone of the value.
    ///
    /// The caller is the one who checked that the safety requirements still
    /// hold with two holders around.
    pub fn clone(&self) -> (r: Self)
        ensures
            vstd::pervasive::strictly_cloned(self@, r@),
    {
        SafeHolder { data: self.data.clone(), sealed: core::marker::PhantomData }
    }

    /// Copies made with `clone` are independent: once `original` is changed
    /// to vouch for `y` (the holder `changed`, as `set` leaves it), `copy`
    /// still holds the clone it was given, and it is the same holder as
    /// `changed` only if that clone is `y` itself.
    pub proof fn lemma_clones_independent(original: Self, copy: Self, changed: Self, y: T)
        requires
            vstd::pervasive::strictly_cloned(original@, copy@),
            changed@ == y,
        ensures
            vstd::pervasive::strictly_cloned(original@, copy@),
            (copy == changed) == (copy@ == y),
    {
        if copy@ == y {
            Self::lemma_view_determines_holder(copy, changed);
        }
    }
}

impl<T: NonDataMarker, const WRITE_ONCE: bool, const READ_ONCE: bool> SafeHolder<T, WRITE_ONCE, READ_ONCE> {
    /// Makes a marker: a holder that vouches for the fact that its type
    /// stands for.
    #[inline(always)]
    pub fn vouch() -> (r: Self)
        ensures
            r@ == T::NEW_MARKER,
    {
        SafeHolder { data: T::NEW_MARKER, sealed: core::marker::PhantomData }
    }

    /// Any two markers of one type are interchangeable.
    pub proof fn lemma_markers_interchangeable(a: Self, b: Self)
        requires
            a@ == T::NEW_MARKER,
            b@ == T::NEW_MARKER,
        ensures
            a == b,
    {
    }
}

impl<T, const READ_ONCE: bool> SafeHolder<T, false, READ_ONCE> {
    /// Replaces the value that the holder vouches for.
    ///
    /// The caller is the one who checked the safety requirements of `data`.
    #[inline(always)]
    pub fn set(&mut self, data: T)
        ensures
            final(self)@ == data,
    {
        self.data = data;
    }
}

impl<T, const WRITE_ONCE: bool> AsRef<T> for SafeHolder<T, WRITE_ONCE, false> {
    /// Reads the value in place.
    fn as_ref(&self) -> (r: &T)
        ensures
            *r == self@,
    {
        &self.data
    }
}

impl<T, const WRITE_ONCE: bool> core::ops::Deref for SafeHolder<T, WRITE_ONCE, false> {
    type Target = T;

    /// Reads the value in place.
    fn deref(&self) -> (r: &T)
        ensures
            *r == self@,
    {
        &self.data
    }
}

impl<T: PartialEq, const WRITE_ONCE: bool> PartialEq for SafeHolder<T, WRITE_ONCE, false> {
    /// Two holders are equal when their values are.
    fn eq(&self, other: &Self) -> (r: bool)
        ensures
            call_ensures(T::eq, (&self@, &other@), r),
    {
        self.data == other.data
    }
}

impl<T: PartialEq, const WRITE_ONCE: bool> vstd::std_specs::cmp::PartialEqSpecImpl for SafeHolder<T, WRITE_ONCE, false> {
    open spec fn obeys_eq_spec() -> bool {
        T::obeys_eq_spec()
    }

    open spec fn eq_spec(&self, other: &Self) -> bool {
        self@.eq_spec(&other@)
    }
}

impl<T: Eq, const WRITE_ONCE: bool> Eq for SafeHolder<T, WRITE_ONCE, false> {
}

impl<T: PartialOrd, const WRITE_ONCE: bool> PartialOrd for SafeHolder<T, WRITE_ONCE, false> {
    /// Holders are ordered as their values are.
    fn partial_cmp(&self, other: &Self) -> (r: Option<core::cmp::Ordering>)
        ensures
            call_ensures(T::partial_cmp, (&self@, &other@), r),
    {
        self.data.partial_cmp(&other.data)
    }
}

impl<T: PartialOrd, const WRITE_ONCE: bool> vstd::std_specs::cmp::PartialOrdSpecImpl for SafeHolder<T, WRITE_ONCE, false> {
    open spec fn obeys_partial_cmp_spec() -> bool {
        T::obeys_partial_cmp_spec()
    }

    open spec fn partial_cmp_spec(&self, other: &Self) -> Option<core::cmp::Ordering> {
        self@.partial_cmp_spec(&other@)
    }
}

impl<T: Ord, const WRITE_ONCE: bool> Ord for SafeHolder<T, WRITE_ONCE, false> {
    /// Holders are ordered as their values are: the result is what `Ord::cmp`
    /// of `T` returns on the two values, in that order.
    ///
    /// This body is trusted: it makes that one call of `Ord::cmp` of `T`, and
    /// the contract claims just that the result came from it, so that it is
    /// `cmp_spec` of the two values wherever `T` obeys its ordering spec.
    #[verifier::external_body]
    fn cmp(&self, other: &Self) -> (r: core::cmp::Ordering)
        ensures
            call_ensures(T::cmp, (&self@, &other@), r),
            T::obeys_cmp_spec() ==> r == self@.cmp_spec(&other@),
    {
        self.data.cmp(&other.data)
    }
}

impl<T: Ord, const WRITE_ONCE: bool> SafeHolder<T, WRITE_ONCE, false> {
    /// Where the values obey the ordering laws, so do the holders: two
    /// holders order as `Equal` exactly when they are `==`, swapping them
    /// swaps `Less` and `Greater`, and `partial_cmp` is `Some` of `cmp`.
    pub proof fn lemma_ordering_follows_values(a: Self, b: Self)
        requires
            vstd::laws_cmp::obeys_cmp::<T>(),
        ensures
            Self::obeys_eq_spec(),
            Self::obeys_partial_cmp_spec(),
            T::obeys_cmp_spec(),
            (a@.cmp_spec(&b@) == core::cmp::Ordering::Equal) == a.eq_spec(&b),
            (a@.cmp_spec(&b@) == core::cmp::Ordering::Less) == (b@.cmp_spec(&a@)
                == core::cmp::Ordering::Greater),
            a.partial_cmp_spec(&b) == Some(a@.cmp_spec(&b@)),
    {
        reveal(vstd::laws_cmp::obeys_cmp_partial_ord);
        reveal(vstd::laws_cmp::obeys_cmp_ord);
        reveal(vstd::laws_cmp::obeys_partial_cmp_spec_properties);
        assert(a@.partial_cmp_spec(&b@) == Some(a@.cmp_spec(&b@)));
        assert(b@.partial_cmp_spec(&a@) == Some(b@.cmp_spec(&a@)));
    }
}

} // verus!
