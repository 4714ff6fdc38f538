//! Read pass-through, granted by the slot's marker.

use vstd::prelude::*;
use crate::SafeUninit;

verus! {

/// Markers that grant read pass-through to the payload.
pub trait EnableDeref {

}

/// The marker of a slot that can be read through, but not written through.
pub struct PhantomDeref;

impl EnableDeref for PhantomDeref {

}

impl<T, R: EnableDeref> SafeUninit<T, R> {
    /// What reading through a populated slot yields: its payload.
    pub open spec fn spec_deref(&self) -> &T
        recommends
            self.initialized(),
    {
        self.take_ref()
    }

    /// Read through the slot to its payload.
    ///
    /// This accessor exists only where the marker grants it. The slot must
    /// be populated; on an empty slot the call panics.
    #[verifier::when_used_as_spec(spec_deref)]
    pub fn deref(&self) -> (r: &T)
        requires
            self.initialized(),
        ensures
            r == self.spec_deref(),
            self@ == Some(*r),
    {
        self.take_ref()
    }
}

} // verus!
