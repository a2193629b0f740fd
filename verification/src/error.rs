//! Error handling for status codes returned by the native API.
//!
//! Every native call reports its outcome through an `HRESULT`: zero means
//! success, any other value identifies a failure category.  A failure is
//! turned into a [`WindowsError`] carrying the raw code together with the
//! bytes the system message lookup produced for it.  The lookup itself is a
//! platform call and happens outside this crate; its output buffer and
//! reported length are handed in as plain values.

use vstd::prelude::*;

verus! {

/// Size in bytes of the buffer handed to the system message lookup; a
/// resolved message is truncated to at most this many bytes.
pub const MAX_MESSAGE_LEN: usize = 512;

/// A result type wrapping [`WindowsError`].
pub type WindowsResult<T> = Result<T, WindowsError>;

/// Represents an error returned by the Windows API: a non-zero status code
/// and the message the system resolved for it.
#[derive(Debug)]
pub struct WindowsError {
    code: u32,
    message: Vec<u8>,
}

/// The message kept for a resolved buffer: its first `len` bytes, truncated
/// at the buffer's own length and at [`MAX_MESSAGE_LEN`].
pub open spec fn truncated_message(resolved: Seq<u8>, len: nat) -> Seq<u8> {
    resolved.take(spec_min3(len, resolved.len(), MAX_MESSAGE_LEN as nat) as int)
}

/// The least of three lengths.
pub open spec fn spec_min3(a: nat, b: nat, c: nat) -> nat {
    if a <= b && a <= c {
        a
    } else if b <= c {
        b
    } else {
        c
    }
}

impl WindowsError {
    /// The status code the error carries.
    pub closed spec fn code_spec(&self) -> u32 {
        self.code
    }

    /// The resolved message bytes the error carries.
    pub closed spec fn message_spec(&self) -> Seq<u8> {
        self.message@
    }

    /// Creates a new instance from the given `HRESULT` code and the buffer
    /// the system message lookup filled for it.  `resolved_len` is the
    /// length the lookup reported; whatever it claims, the message is cut at
    /// the buffer's end and at [`MAX_MESSAGE_LEN`], so no input can make
    /// this fail.
    pub fn from_hresult(hresult: i32, resolved: &[u8], resolved_len: usize) -> (e: WindowsError)
        ensures
            e.code_spec() == hresult as u32,
            e.message_spec() == truncated_message(resolved@, resolved_len as nat),
            e.message_spec().len() <= MAX_MESSAGE_LEN,
    {
        let mut bound: usize = resolved_len;
        if resolved.len() < bound {
            bound = resolved.len();
        }
        if MAX_MESSAGE_LEN < bound {
            bound = MAX_MESSAGE_LEN;
        }
        let mut message: Vec<u8> = Vec::new();
        let mut i: usize = 0;
        while i < bound
            invariant
                i <= bound,
                bound == spec_min3(resolved_len as nat, resolved@.len(), MAX_MESSAGE_LEN as nat),
                bound <= resolved@.len(),
                message@ == resolved@.take(i as int),
            decreases bound - i,
        {
            message.push(resolved[i]);
            i += 1;
        }
        assert(message@ == truncated_message(resolved@, resolved_len as nat));
        WindowsError { code: hresult as u32, message }
    }

    /// The raw status code.
    pub fn code(&self) -> (r: u32)
        ensures
            r == self.code_spec(),
    {
        self.code
    }

    /// The resolved message bytes.
    pub fn message(&self) -> (r: &Vec<u8>)
        ensures
            r@ == self.message_spec(),
    {
        &self.message
    }
}

/// Translates one status code: zero yields success and carries no message,
/// any other value yields a failure carrying that exact code and the message
/// resolved for it.  Both ways a caller consumes a status (a plain check,
/// and a check that propagates with `?`) go through this one function.
pub fn check_hresult(hresult: i32, resolved: &[u8], resolved_len: usize) -> (r: WindowsResult<()>)
    ensures
        r is Ok <==> hresult == 0,
        r matches Err(e) ==> e.code_spec() == hresult as u32
            && e.message_spec() == truncated_message(resolved@, resolved_len as nat),
{
    if hresult != 0 {
        Err(WindowsError::from_hresult(hresult, resolved, resolved_len))
    } else {
        Ok(())
    }
}

} // verus!
