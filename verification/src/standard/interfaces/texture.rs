//! The texture interface: a two-dimensional image resource, together with
//! the size it was created with.

use vstd::prelude::*;

use crate::com::Com;
use crate::com::ComObject;
use crate::com::spec_release;
use crate::com::spec_retain;
use crate::error::WindowsResult;
use crate::error::check_hresult;
use crate::error::truncated_message;

verus! {

/// A safe wrapper around the `IDirect3DTexture9` interface.  Beside the
/// handle it keeps the width and height the texture was created with, so a
/// locked level can be measured.
pub struct Texture {
    com: Com,
    size: (u32, u32),
}

impl Texture {
    /// The handle value the wrapper holds.
    pub closed spec fn addr_spec(&self) -> u64 {
        self.com.addr()
    }

    /// The width and height the texture was created with.
    pub closed spec fn size_spec(&self) -> (u32, u32) {
        self.size
    }

    /// Returns a new instance over the passed handle, which must not be
    /// null and is assumed to carry one implicit reference already.
    pub fn with_ptr(raw: u64, size: (u32, u32)) -> (r: Texture)
        requires
            raw != 0,
        ensures
            r.addr_spec() == raw,
            r.size_spec() == size,
    {
        Texture { com: Com::with_ptr(raw), size }
    }

    /// The handle value, for passing to further native calls.
    pub fn as_ptr(&self) -> (r: u64)
        ensures
            r == self.addr_spec(),
            r != 0,
    {
        self.com.as_ptr()
    }

    /// The width and height the texture was created with.
    pub fn size(&self) -> (r: (u32, u32))
        ensures
            r == self.size_spec(),
    {
        self.size
    }

    /// Completes a creation call that hands a texture back through an out
    /// pointer: a zero status yields the wrapper over the returned handle,
    /// any other status yields the translated error.  On success the
    /// native call is owed to have filled the pointer, so a null handle
    /// beside a zero status is outside this function's contract.
    pub fn from_created(
        hresult: i32,
        raw: u64,
        size: (u32, u32),
        resolved: &[u8],
        resolved_len: usize,
    ) -> (r: WindowsResult<Texture>)
        requires
            hresult == 0 ==> raw != 0,
        ensures
            r is Ok <==> hresult == 0,
            r matches Ok(v) ==> v.addr_spec() == raw && v.size_spec() == size,
            r matches Err(e) ==> e.code_spec() == hresult as u32 && e.message_spec()
                == truncated_message(resolved@, resolved_len as nat),
    {
        match check_hresult(hresult, resolved, resolved_len) {
            Ok(()) => Ok(Texture { com: Com::with_ptr(raw), size }),
            Err(e) => Err(e),
        }
    }

    /// The number of elements of the given size that one locked level
    /// holds: width times height, each pixel one element.  The product
    /// must fit the platform's word.
    pub fn lock_element_count(&self, element_size: usize) -> (r: usize)
        requires
            1 <= element_size,
            self.size_spec().0 as int * self.size_spec().1 as int * element_size as int
                <= usize::MAX as int,
        ensures
            r == self.size_spec().0 as int * self.size_spec().1 as int * element_size as int,
    {
        let (w, h) = self.size;
        proof {
            let wi: int = w as int;
            let hi: int = h as int;
            let ei: int = element_size as int;
            assert(wi * hi <= wi * hi * ei) by (nonlinear_arith)
                requires
                    0 <= wi,
                    0 <= hi,
                    1 <= ei,
            ;
        }
        (w as usize) * (h as usize) * element_size
    }

    /// Shares the wrapper: retains one more reference on the foreign
    /// object and returns a new wrapper over the same handle.
    pub fn retain(&self, obj: &mut ComObject) -> (r: Texture)
        requires
            0 < old(obj).refs < u64::MAX,
        ensures
            *final(obj) == spec_retain(*old(obj)),
            r.addr_spec() == self.addr_spec(),
            r.size_spec() == self.size_spec(),
    {
        Texture { com: self.com.retain(obj), size: self.size }
    }

    /// Gives the wrapper's reference back to the foreign object and
    /// consumes the wrapper.
    pub fn release(self, obj: &mut ComObject)
        requires
            old(obj).refs > 0,
        ensures
            *final(obj) == spec_release(*old(obj)),
    {
        self.com.release(obj)
    }
}

} // verus!
