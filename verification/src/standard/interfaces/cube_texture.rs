//! The cube texture interface.

use vstd::prelude::*;

use crate::com::Com;
use crate::com::ComObject;
use crate::com::spec_release;
use crate::com::spec_retain;
use crate::error::WindowsResult;
use crate::error::check_hresult;
use crate::error::truncated_message;

verus! {

/// A safe wrapper around the `IDirect3DCubeTexture9` interface.
pub struct CubeTexture {
    com: Com,
}

impl CubeTexture {
    /// The handle value the wrapper holds.
    pub closed spec fn addr_spec(&self) -> u64 {
        self.com.addr()
    }

    /// Returns a new instance over the passed handle, which must not be
    /// null and is assumed to carry one implicit reference already.
    pub fn with_ptr(raw: u64) -> (r: CubeTexture)
        requires
            raw != 0,
        ensures
            r.addr_spec() == raw,
    {
        CubeTexture { com: Com::with_ptr(raw) }
    }

    /// The handle value, for passing to further native calls.
    pub fn as_ptr(&self) -> (r: u64)
        ensures
            r == self.addr_spec(),
            r != 0,
    {
        self.com.as_ptr()
    }

    /// Completes a creation call that hands this interface back through an
    /// out pointer: a zero status yields the wrapper over the returned
    /// handle, any other status yields the translated error.  On success
    /// the native call is owed to have filled the pointer, so a null handle
    /// beside a zero status is outside this function's contract.
    pub fn from_created(hresult: i32, raw: u64, resolved: &[u8], resolved_len: usize) -> (r:
        WindowsResult<CubeTexture>)
        requires
            hresult == 0 ==> raw != 0,
        ensures
            r is Ok <==> hresult == 0,
            r matches Ok(v) ==> v.addr_spec() == raw,
            r matches Err(e) ==> e.code_spec() == hresult as u32 && e.message_spec()
                == truncated_message(resolved@, resolved_len as nat),
    {
        match check_hresult(hresult, resolved, resolved_len) {
            Ok(()) => Ok(CubeTexture { com: Com::with_ptr(raw) }),
            Err(e) => Err(e),
        }
    }

    /// Shares the wrapper: retains one more reference on the foreign
    /// object and returns a new wrapper over the same handle.
    pub fn retain(&self, obj: &mut ComObject) -> (r: CubeTexture)
        requires
            0 < old(obj).refs < u64::MAX,
        ensures
            *final(obj) == spec_retain(*old(obj)),
            r.addr_spec() == self.addr_spec(),
    {
        CubeTexture { com: self.com.retain(obj) }
    }

    /// Gives the wrapper's reference back to the foreign object and
    /// consumes the wrapper.
    pub fn release(self, obj: &mut ComObject)
        requires
            old(obj).refs > 0,
        ensures
            *final(obj) == spec_release(*old(obj)),
    {
        self.com.release(obj)
    }
}

} // verus!
