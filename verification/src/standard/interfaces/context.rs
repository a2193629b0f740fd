//! The context interface: the entry object everything else is enumerated
//! and created from.

use vstd::prelude::*;

use crate::com::Com;
use crate::com::ComObject;
use crate::com::spec_release;
use crate::com::spec_retain;

verus! {

/// The SDK version constant the native factory call is given.
pub const SDK_VERSION: u32 = 32;

/// A safe wrapper around the `IDirect3D9` interface.
pub struct Context {
    com: Com,
}

impl Context {
    /// The handle value the wrapper holds.
    pub closed spec fn addr_spec(&self) -> u64 {
        self.com.addr()
    }

    /// Returns a new instance over the handle the native factory call
    /// produced, which must not be null.
    pub fn with_ptr(raw: u64) -> (r: Context)
        requires
            raw != 0,
        ensures
            r.addr_spec() == raw,
    {
        Context { com: Com::with_ptr(raw) }
    }

    /// Construction with the null check at the boundary: the factory call
    /// reports failure by a null handle, and a null handle is rejected
    /// here, never wrapped.
    pub fn try_with_ptr(raw: u64) -> (r: Option<Context>)
        ensures
            r is Some <==> raw != 0,
            r matches Some(c) ==> c.addr_spec() == raw,
    {
        match Com::try_with_ptr(raw) {
            Some(com) => Some(Context { com }),
            None => None,
        }
    }

    /// The handle value, for passing to further native calls.
    pub fn as_ptr(&self) -> (r: u64)
        ensures
            r == self.addr_spec(),
            r != 0,
    {
        self.com.as_ptr()
    }

    /// Shares the wrapper: retains one more reference on the foreign
    /// object and returns a new wrapper over the same handle.
    pub fn retain(&self, obj: &mut ComObject) -> (r: Context)
        requires
            0 < old(obj).refs < u64::MAX,
        ensures
            *final(obj) == spec_retain(*old(obj)),
            r.addr_spec() == self.addr_spec(),
    {
        Context { com: self.com.retain(obj) }
    }

    /// Gives the wrapper's reference back to the foreign object and
    /// consumes the wrapper.
    pub fn release(self, obj: &mut ComObject)
        requires
            old(obj).refs > 0,
        ensures
            *final(obj) == spec_release(*old(obj)),
    {
        self.com.release(obj)
    }
}

} // verus!
