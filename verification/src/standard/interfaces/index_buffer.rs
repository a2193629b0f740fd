//! The index buffer interface.

use vstd::prelude::*;

use crate::com::Com;
use crate::com::ComObject;
use crate::com::spec_release;
use crate::com::spec_retain;
use crate::error::WindowsResult;
use crate::error::check_hresult;
use crate::error::truncated_message;

verus! {

/// A safe wrapper around the `IDirect3DIndexBuffer9` interface.
pub struct IndexBuffer {
    com: Com,
}

impl IndexBuffer {
    /// The handle value the wrapper holds.
    pub closed spec fn addr_spec(&self) -> u64 {
        self.com.addr()
    }

    /// Returns a new instance over the passed handle, which must not be
    /// null and is assumed to carry one implicit reference already.
    pub fn with_ptr(raw: u64) -> (r: IndexBuffer)
        requires
            raw != 0,
        ensures
            r.addr_spec() == raw,
    {
        IndexBuffer { com: Com::with_ptr(raw) }
    }

    /// The handle value, for passing to further native calls.
    pub fn as_ptr(&self) -> (r: u64)
        ensures
            r == self.addr_spec(),
            r != 0,
    {
        self.com.as_ptr()
    }

    /// Completes a creation call that hands this interface back through an
    /// out pointer: a zero status yields the wrapper over the returned
    /// handle, any other status yields the translated error.  On success
    /// the native call is owed to have filled the pointer, so a null handle
    /// beside a zero status is outside this function's contract.
    pub fn from_created(hresult: i32, raw: u64, resolved: &[u8], resolved_len: usize) -> (r:
        WindowsResult<IndexBuffer>)
        requires
            hresult == 0 ==> raw != 0,
        ensures
            r is Ok <==> hresult == 0,
            r matches Ok(v) ==> v.addr_spec() == raw,
            r matches Err(e) ==> e.code_spec() == hresult as u32 && e.message_spec()
                == truncated_message(resolved@, resolved_len as nat),
    {
        match check_hresult(hresult, resolved, resolved_len) {
            Ok(()) => Ok(IndexBuffer { com: Com::with_ptr(raw) }),
            Err(e) => Err(e),
        }
    }

    /// Shares the wrapper: retains one more reference on the foreign
    /// object and returns a new wrapper over the same handle.
    pub fn retain(&self, obj: &mut ComObject) -> (r: IndexBuffer)
        requires
            0 < old(obj).refs < u64::MAX,
        ensures
            *final(obj) == spec_retain(*old(obj)),
            r.addr_spec() == self.addr_spec(),
    {
        IndexBuffer { com: self.com.retain(obj) }
    }

    /// Gives the wrapper's reference back to the foreign object and
    /// consumes the wrapper.
    pub fn release(self, obj: &mut ComObject)
        requires
            old(obj).refs > 0,
        ensures
            *final(obj) == spec_release(*old(obj)),
    {
        self.com.release(obj)
    }

    /// The number of elements of the given size that a locked range of
    /// `size` bytes holds: what the lock call's raw storage is cut into.
    pub fn lock_element_count(&self, size: u32, element_size: usize) -> (r: usize)
        requires
            element_size != 0,
        ensures
            r == size as usize / element_size,
    {
        size as usize / element_size
    }
}

} // verus!
