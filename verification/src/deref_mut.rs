//! Write pass-through, granted by the slot's marker.

use vstd::prelude::*;
use crate::SafeUninit;
use crate::deref::EnableDeref;

verus! {

/// Markers that grant write pass-through to the payload.
pub trait EnableDerefMut {

}

/// The marker of a slot that can be read and written through.
pub struct PhantomDerefMut;

impl EnableDeref for PhantomDerefMut {

}

impl EnableDerefMut for PhantomDerefMut {

}

impl<T, R: EnableDeref + EnableDerefMut> SafeUninit<T, R> {
    /// The slot after `value` was written through it: whatever it held
    /// before, it now holds `value`.
    pub open spec fn spec_written(self, value: T) -> Self
        recommends
            self.initialized(),
    {
        Self::spec_new(value)
    }

    /// Write through the slot to its payload.
    ///
    /// This accessor exists only where the marker grants both read and
    /// write pass-through. The slot must be populated; on an empty slot the
    /// call panics. When the borrow ends, the slot holds what was last
    /// written through it.
    pub fn deref_mut(&mut self) -> (r: &mut T)
        requires
            old(self).initialized(),
        ensures
            old(self)@ == Some(*r),
            final(self)@ == Some(*final(r)),
            *final(self) == old(self).spec_written(*final(r)),
    {
        self.take_mut()
    }
}

} // verus!
