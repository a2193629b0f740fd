//! The shader compiler entry point.
//!
//! Compiling a shader marshals three strings into C-string images, crosses
//! the native boundary, and turns the status code and the two returned
//! handles into typed results.  The marshaling and the translation are
//! here; the native call itself happens outside this crate, between the
//! two halves.

use vstd::prelude::*;
use vstd::slice::slice_to_vec;

use crate::error::WindowsError;
use crate::error::check_hresult;
use crate::error::truncated_message;
use crate::x::interfaces::Buffer;
use crate::x::interfaces::ConstantTable;

verus! {

/// An input string held a nul byte and cannot be marshaled as a C string;
/// the position names the first offending byte.
#[derive(Clone, Copy, Debug, PartialEq, Eq, Structural)]
pub struct NulError {
    pub position: usize,
}

/// What can go wrong while compiling a shader: the native call failed, or
/// an input could not even be marshaled.
#[derive(Debug)]
pub enum CompileError {
    /// The native call reported a non-zero status.
    Windows { from: WindowsError },
    /// An input string held a nul byte.
    Nul { from: NulError },
}

/// Whether a byte string holds no nul byte, and so can be marshaled as a C
/// string.
pub open spec fn nul_free(bytes: Seq<u8>) -> bool {
    forall|i: int| 0 <= i < bytes.len() ==> bytes[i] != 0
}

/// Whether `i` is the position of the first nul byte in `bytes`.
pub open spec fn is_first_nul(bytes: Seq<u8>, i: int) -> bool {
    &&& 0 <= i < bytes.len()
    &&& bytes[i] == 0
    &&& (forall|j: int| 0 <= j < i ==> bytes[j] != 0)
}

/// The position of the first nul byte, if any.
pub fn first_nul_position(bytes: &[u8]) -> (r: Option<usize>)
    ensures
        r matches Some(i) ==> is_first_nul(bytes@, i as int),
        r is None <==> nul_free(bytes@),
{
    let mut i: usize = 0;
    while i < bytes.len()
        invariant
            i <= bytes@.len(),
            forall|j: int| 0 <= j < i ==> bytes@[j] != 0,
        decreases bytes@.len() - i,
    {
        if bytes[i] == 0 {
            return Some(i);
        }
        i += 1;
    }
    None
}

/// The three marshaled inputs of one compiler call: each string as its
/// C-string image with the terminating nul appended, and the source length
/// as the native call takes it.
pub struct PreparedCompile {
    pub src_data: Vec<u8>,
    pub src_len: u32,
    pub function_name: Vec<u8>,
    pub profile: Vec<u8>,
}

/// Marshals the inputs of a compiler call.  Each of the three strings must
/// be free of nul bytes; the first one that is not — checked in the order
/// source, function name, profile — is reported with the position of its
/// offending byte.
pub fn compile_shader_prepare(src_data: &[u8], function_name: &[u8], profile: &[u8]) -> (r: Result<
    PreparedCompile,
    CompileError,
>)
    requires
        src_data@.len() <= u32::MAX,
    ensures
        r is Ok <==> nul_free(src_data@) && nul_free(function_name@) && nul_free(profile@),
        r matches Ok(p) ==> {
            &&& p.src_data@ == src_data@ + seq![0u8]
            &&& p.src_len == src_data@.len()
            &&& p.function_name@ == function_name@ + seq![0u8]
            &&& p.profile@ == profile@ + seq![0u8]
        },
        !nul_free(src_data@) ==> (r matches Err(CompileError::Nul { from }) && is_first_nul(
            src_data@,
            from.position as int,
        )),
        nul_free(src_data@) && !nul_free(function_name@) ==> (r matches Err(
            CompileError::Nul { from },
        ) && is_first_nul(function_name@, from.position as int)),
        nul_free(src_data@) && nul_free(function_name@) && !nul_free(profile@) ==> (r matches Err(
            CompileError::Nul { from },
        ) && is_first_nul(profile@, from.position as int)),
{
    if let Some(position) = first_nul_position(src_data) {
        return Err(CompileError::Nul { from: NulError { position } });
    }
    if let Some(position) = first_nul_position(function_name) {
        return Err(CompileError::Nul { from: NulError { position } });
    }
    if let Some(position) = first_nul_position(profile) {
        return Err(CompileError::Nul { from: NulError { position } });
    }
    let mut src_image: Vec<u8> = slice_to_vec(src_data);
    let src_len: u32 = src_image.len() as u32;
    src_image.push(0);
    let mut function_name_image: Vec<u8> = slice_to_vec(function_name);
    function_name_image.push(0);
    let mut profile_image: Vec<u8> = slice_to_vec(profile);
    profile_image.push(0);
    Ok(PreparedCompile {
        src_data: src_image,
        src_len,
        function_name: function_name_image,
        profile: profile_image,
    })
}

/// Completes a compiler call: a zero status yields the compiled shader
/// buffer and its constant table, any other status the translated error.
/// On success the native call is owed to have filled both out pointers, so
/// a null handle beside a zero status is outside this function's contract.
pub fn compile_shader_finish(
    hresult: i32,
    shader_raw: u64,
    constant_table_raw: u64,
    resolved: &[u8],
    resolved_len: usize,
) -> (r: Result<(Buffer, ConstantTable), CompileError>)
    requires
        hresult == 0 ==> shader_raw != 0 && constant_table_raw != 0,
    ensures
        r is Ok <==> hresult == 0,
        r matches Ok(p) ==> p.0.addr_spec() == shader_raw && p.1.addr_spec()
            == constant_table_raw,
        r matches Err(e) ==> (e matches CompileError::Windows { from } && from.code_spec()
            == hresult as u32 && from.message_spec() == truncated_message(
            resolved@,
            resolved_len as nat,
        )),
{
    match check_hresult(hresult, resolved, resolved_len) {
        Ok(()) => Ok(
            (Buffer::with_ptr(shader_raw), ConstantTable::with_ptr(constant_table_raw)),
        ),
        Err(from) => Err(CompileError::Windows { from }),
    }
}

} // verus!
