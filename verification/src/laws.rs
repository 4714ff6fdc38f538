//! What holds of the accessors taken together.
//!
//! Each statement is over the spec functions in which the accessors'
//! contracts are written, so it holds of every run of the executable code.

use vstd::prelude::*;
use crate::SafeUninit;
use crate::deref::EnableDeref;
use crate::deref_mut::EnableDerefMut;

verus! {

/// A slot made with `new` is populated, whatever the payload; a slot made
/// with `uninit` is empty.
pub proof fn law_constructed_state<T, R>(v: T)
    ensures
        SafeUninit::<T, R>::new(v).initialized(),
        !SafeUninit::<T, R>::uninit().initialized(),
{
    SafeUninit::<T, R>::lemma_constructors(v);
}

/// A slot is in one of two states: it is the empty slot, or it is the slot
/// that `new` makes from its payload.
pub proof fn law_two_states<T, R>(s: SafeUninit<T, R>)
    ensures
        !s.initialized() ==> s == SafeUninit::<T, R>::uninit(),
        s.initialized() ==> s == SafeUninit::<T, R>::new(s.take()),
{
    SafeUninit::<T, R>::lemma_constructors(s.take());
    if s.initialized() {
        SafeUninit::lemma_view_injective(s, SafeUninit::<T, R>::new(s.take()));
    } else {
        SafeUninit::lemma_view_injective(s, SafeUninit::<T, R>::uninit());
    }
}

/// Populating a slot and consuming it gives the payload back.
pub proof fn law_new_take<T, R>(v: T)
    ensures
        SafeUninit::<T, R>::new(v).take() == v,
{
    SafeUninit::<T, R>::lemma_constructors(v);
}

/// Storing `v2` in a slot that holds `v1` hands `v1` back, and consuming
/// the slot afterwards gives `v2`.
pub proof fn law_replace_populated<T, R>(v1: T, v2: T)
    ensures
        SafeUninit::<T, R>::new(v1).spec_replace(v2).1 == Some(v1),
        SafeUninit::<T, R>::new(v1).spec_replace(v2).0.initialized(),
        SafeUninit::<T, R>::new(v1).spec_replace(v2).0.take() == v2,
{
    SafeUninit::<T, R>::lemma_constructors(v1);
    SafeUninit::<T, R>::lemma_constructors(v2);
}

/// Storing `v` in an empty slot hands nothing back, and the slot then
/// holds `v`.
pub proof fn law_replace_empty<T, R>(v: T)
    ensures
        SafeUninit::<T, R>::uninit().spec_replace(v).1 == None::<T>,
        SafeUninit::<T, R>::uninit().spec_replace(v).0@ == Some(v),
        SafeUninit::<T, R>::uninit().spec_replace(v).0 == SafeUninit::<T, R>::new(v),
{
    SafeUninit::<T, R>::lemma_constructors(v);
}

/// Storing a value makes any slot populated with that value: the last
/// write wins, and what was there before does not matter.
pub proof fn law_initialize_last_write_wins<T, R>(s: SafeUninit<T, R>, v1: T, v2: T)
    ensures
        s.spec_initialize(v1).take() == v1,
        s.spec_initialize(v1).spec_initialize(v2) == s.spec_initialize(v2),
        s.spec_initialize(v1).spec_initialize(v1) == s.spec_initialize(v1),
{
    SafeUninit::<T, R>::lemma_constructors(v1);
}

/// Converting a slot to an optional value is defined in either state:
/// nothing for an empty slot, the payload for a populated one.
pub proof fn law_take_option_total<T, R>(v: T)
    ensures
        SafeUninit::<T, R>::uninit().take_option() == None::<T>,
        SafeUninit::<T, R>::new(v).take_option() == Some(v),
{
    SafeUninit::<T, R>::lemma_constructors(v);
}

/// The checked accessors agree with the optional one wherever they are
/// defined, and the slot is populated exactly when the optional one
/// yields a value.
pub proof fn law_accessors_agree<T, R>(s: SafeUninit<T, R>)
    ensures
        s.initialized() <==> s.take_option() is Some,
        s.initialized() ==> s.take_option() == Some(s.take()),
        s.initialized() ==> *s.take_ref() == s.take(),
{
}

/// Reading through a slot populated with `v` yields `v`.
pub proof fn law_read_through<T, R: EnableDeref>(v: T)
    ensures
        *SafeUninit::<T, R>::new(v).deref() == v,
{
    SafeUninit::<T, R>::lemma_constructors(v);
}

/// After `w` was written through a populated slot, reading through it and
/// consuming it both yield `w`.
pub proof fn law_write_through<T, R: EnableDeref + EnableDerefMut>(v: T, w: T)
    ensures
        *SafeUninit::<T, R>::new(v).spec_written(w).deref() == w,
        SafeUninit::<T, R>::new(v).spec_written(w).take() == w,
{
    SafeUninit::<T, R>::lemma_constructors(w);
}

} // verus!
