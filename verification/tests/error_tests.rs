use d3d9::error::{check_hresult, WindowsError, MAX_MESSAGE_LEN};

#[test]
fn zero_status_is_success() {
    let r = check_hresult(0, b"", 0);
    assert!(r.is_ok());
}

#[test]
fn zero_status_is_success_with_nonempty_buffer() {
    // Whatever the lookup buffer holds, a zero status carries no message.
    let r = check_hresult(0, b"ignored", 7);
    assert!(r.is_ok());
}

#[test]
fn nonzero_status_is_failure_with_exact_code() {
    let code = 0x80070057u32 as i32;
    let message = b"The parameter is incorrect.";
    let r = check_hresult(code, message, message.len());
    let e = r.unwrap_err();
    assert_eq!(e.code(), 0x80070057u32);
    assert_eq!(e.message().as_slice(), message);
}

#[test]
fn every_nonzero_status_fails() {
    for code in [1i32, -1, 0x7FFFFFFF, i32::MIN, 0x8007000Eu32 as i32] {
        let r = check_hresult(code, b"", 0);
        assert_eq!(r.unwrap_err().code(), code as u32);
    }
}

#[test]
fn message_truncates_at_maximum_length() {
    let big = vec![b'x'; 600];
    let e = WindowsError::from_hresult(5, &big, 600);
    assert_eq!(e.message().len(), MAX_MESSAGE_LEN);
    assert!(e.message().iter().all(|&b| b == b'x'));
}

#[test]
fn message_truncates_at_buffer_length() {
    // A reported length beyond the buffer cannot reach past its end.
    let e = WindowsError::from_hresult(5, b"abc", 99);
    assert_eq!(e.message().as_slice(), b"abc");
}

#[test]
fn message_truncates_at_reported_length() {
    let e = WindowsError::from_hresult(5, b"abcdef", 2);
    assert_eq!(e.message().as_slice(), b"ab");
}

#[test]
fn unrecognized_code_still_carries_code() {
    // A code the system message table does not know resolves to nothing;
    // the failure still carries the raw code.
    let e = WindowsError::from_hresult(0x4BADBEEFu32 as i32, b"", 0);
    assert_eq!(e.code(), 0x4BADBEEFu32);
    assert!(e.message().is_empty());
}
