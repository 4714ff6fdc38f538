//! A slot that may be declared before its value is known.
//!
//! A [`SafeUninit`] holds nothing or one value. Every accessor that needs the
//! value states so as a precondition, and the marker type chosen for the slot
//! decides which pass-through accessors the slot has.

use vstd::prelude::*;
use core::marker::PhantomData;

pub mod deref;
pub mod deref_mut;
pub mod laws;

verus! {

/// A slot for zero or one value of type `T`.
///
/// `R` is a marker that is never stored: it selects the pass-through
/// accessors of the slot (see [`deref`] and [`deref_mut`]).
pub struct SafeUninit<T, R> {
    inner: Option<T>,
    phantom: PhantomData<R>,
}

impl<T, R> View for SafeUninit<T, R> {
    type V = Option<T>;

    /// What the slot holds: `None` while empty, `Some(v)` once populated.
    closed spec fn view(&self) -> Option<T> {
        self.inner
    }
}

impl<T, R> SafeUninit<T, R> {
    /// The empty slot.
    pub closed spec fn spec_uninit() -> Self {
        SafeUninit { inner: None, phantom: PhantomData }
    }

    /// The slot that holds `inner`.
    pub closed spec fn spec_new(inner: T) -> Self {
        SafeUninit { inner: Some(inner), phantom: PhantomData }
    }

    /// Whether a value is present.
    pub open spec fn spec_initialized(&self) -> bool {
        self@ is Some
    }

    /// Create an empty slot.
    #[verifier::when_used_as_spec(spec_uninit)]
    pub fn uninit() -> (r: Self)
        ensures
            r == Self::spec_uninit(),
            r@ == None::<T>,
            !r.initialized(),
    {
        Self { inner: None, phantom: PhantomData }
    }

    /// Create a slot that holds `inner`.
    #[verifier::when_used_as_spec(spec_new)]
    pub fn new(inner: T) -> (r: Self)
        ensures
            r == Self::spec_new(inner),
            r@ == Some(inner),
            r.initialized(),
    {
        Self { inner: Some(inner), phantom: PhantomData }
    }

    /// Check whether the slot holds a value.
    #[verifier::when_used_as_spec(spec_initialized)]
    pub fn initialized(&self) -> (b: bool)
        ensures
            b == self.spec_initialized(),
    {
        self.inner.is_some()
    }

    /// The payload of a populated slot.
    pub open spec fn spec_take(self) -> T
        recommends
            self.initialized(),
    {
        self@->0
    }

    /// The payload of the slot, if there is one.
    pub open spec fn spec_take_option(self) -> Option<T> {
        self@
    }

    /// The payload of a populated slot, borrowed.
    pub open spec fn spec_take_ref(&self) -> &T
        recommends
            self.initialized(),
    {
        &self@->0
    }

    /// The outcome of storing `with`: the slot afterwards, and what it held
    /// before.
    pub open spec fn spec_replace(self, with: T) -> (Self, Option<T>) {
        (Self::spec_new(with), self@)
    }

    /// The slot after `with` was stored in it.
    pub open spec fn spec_initialize(self, with: T) -> Self {
        self.spec_replace(with).0
    }

    /// The constructors have the views that their names promise.
    pub proof fn lemma_constructors(inner: T)
        ensures
            Self::spec_uninit()@ == None::<T>,
            Self::spec_new(inner)@ == Some(inner),
    {
    }

    /// A slot is no more than what it holds: the marker is not data, so two
    /// slots with the same view are the same slot.
    pub proof fn lemma_view_injective(a: Self, b: Self)
        requires
            a@ == b@,
        ensures
            a == b,
    {
    }

    /// Move the payload out of the slot.
    ///
    /// The slot must be populated; on an empty slot the call panics, so
    /// verified callers are kept from making it.
    #[verifier::when_used_as_spec(spec_take)]
    pub fn take(self) -> (r: T)
        requires
            self.initialized(),
        ensures
            r == self.spec_take(),
            self@ == Some(r),
    {
        self.inner.unwrap()
    }

    /// Move out whatever the slot holds. Unlike [`SafeUninit::take`] this
    /// is defined on an empty slot too.
    #[verifier::when_used_as_spec(spec_take_option)]
    pub fn take_option(self) -> (r: Option<T>)
        ensures
            r == self.spec_take_option(),
            r == self@,
    {
        self.inner
    }

    /// Borrow the payload.
    ///
    /// The slot must be populated; on an empty slot the call panics.
    #[verifier::when_used_as_spec(spec_take_ref)]
    pub fn take_ref(&self) -> (r: &T)
        requires
            self.initialized(),
        ensures
            r == self.spec_take_ref(),
            self@ == Some(*r),
    {
        self.inner.as_ref().unwrap()
    }

    /// Borrow the payload mutably.
    ///
    /// The slot must be populated; on an empty slot the call panics. When
    /// the borrow ends, the slot holds what was last written through it.
    pub fn take_mut(&mut self) -> (r: &mut T)
        requires
            old(self).initialized(),
        ensures
            old(self)@ == Some(*r),
            final(self)@ == Some(*final(r)),
            *final(self) == Self::spec_new(*final(r)),
    {
        self.inner.as_mut().unwrap()
    }

    /// Same as [`SafeUninit::take`]. That the slot is populated is the
    /// caller's obligation alone.
    pub fn take_unchecked(self) -> (r: T)
        requires
            self.initialized(),
        ensures
            r == self.spec_take(),
            self@ == Some(r),
    {
        self.inner.unwrap()
    }

    /// Same as [`SafeUninit::take_mut`]. That the slot is populated is the
    /// caller's obligation alone.
    pub fn take_mut_unchecked(&mut self) -> (r: &mut T)
        requires
            old(self).initialized(),
        ensures
            old(self)@ == Some(*r),
            final(self)@ == Some(*final(r)),
            *final(self) == Self::spec_new(*final(r)),
    {
        self.inner.as_mut().unwrap()
    }

    /// Same as [`SafeUninit::take_ref`]. That the slot is populated is the
    /// caller's obligation alone.
    pub fn take_ref_unchecked(&self) -> (r: &T)
        requires
            self.initialized(),
        ensures
            r == self.spec_take_ref(),
            self@ == Some(*r),
    {
        self.inner.as_ref().unwrap()
    }

    /// Exactly the same as [`SafeUninit::replace`], but hands nothing back.
    #[inline(always)]
    pub fn initialize(&mut self, with: T)
        ensures
            *final(self) == old(self).spec_initialize(with),
            final(self)@ == Some(with),
    {
        let _ = self.replace(with);
    }

    /// Store `with` in the slot and hand back what it held before.
    #[inline(always)]
    pub fn replace(&mut self, with: T) -> (r: Option<T>)
        ensures
            (*final(self), r) == old(self).spec_replace(with),
            final(self)@ == Some(with),
            r == old(self)@,
    {
        let mut previous = Some(with);
        core::mem::swap(&mut self.inner, &mut previous);
        previous
    }
}

impl<T: Default, R> Default for SafeUninit<T, R> {
    /// A slot populated with a default payload.
    fn default() -> (r: Self)
        ensures
            r.initialized(),
            call_ensures(T::default, (), r.take()),
    {
        Self::new(T::default())
    }
}

impl<T, R> From<SafeUninit<T, R>> for Option<T> {
    /// Same as [`SafeUninit::take_option`].
    fn from(slot: SafeUninit<T, R>) -> (r: Option<T>) {
        slot.take_option()
    }
}

impl<T, R> vstd::std_specs::convert::FromSpecImpl<SafeUninit<T, R>> for Option<T> {
    open spec fn obeys_from_spec() -> bool {
        true
    }

    open spec fn from_spec(slot: SafeUninit<T, R>) -> Option<T> {
        slot.take_option()
    }
}

} // verus!
