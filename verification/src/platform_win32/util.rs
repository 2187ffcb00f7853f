//! Turning status codes of the Windows API into errors.
use vstd::prelude::*;
use crate::error::SleepToolError;
use crate::text::{chars_of, hex_chars, hex_spec, push_all};

verus! {

broadcast use vstd::string::group_string_axioms;

/// `prefix` followed by the status as `0x` and eight upper-case hex digits.
pub open spec fn status_message(prefix: Seq<char>, status: u32) -> Seq<char> {
    prefix + "0x"@ + hex_spec(status as nat, 8)
}

fn status_text(prefix: &str, status: u32) -> (r: String)
    ensures
        r@ == status_message(prefix@, status),
{
    let mut s = String::new();
    push_all(&mut s, &chars_of(prefix));
    push_all(&mut s, &chars_of("0x"));
    push_all(&mut s, &hex_chars(status, 8));
    assert(s@ =~= status_message(prefix@, status));
    s
}

/// A PDH status: zero is success, anything else an error naming the code.
pub fn check_pdh(status: u32) -> (r: Result<(), SleepToolError>)
    ensures
        status == 0 ==> r is Ok,
        status != 0 ==> (r matches Err(SleepToolError::Platform(m)) && m@ == status_message(
            "PDH error: "@,
            status,
        )),
{
    if status == 0 {
        Ok(())
    } else {
        Err(SleepToolError::Platform(status_text("PDH error: ", status)))
    }
}

/// A Win32 error code: zero is success, anything else an error naming the
/// code.
pub fn check_win32_status(status: u32) -> (r: Result<(), SleepToolError>)
    ensures
        status == 0 ==> r is Ok,
        status != 0 ==> (r matches Err(SleepToolError::Platform(m)) && m@ == status_message(
            "Windows error: "@,
            status,
        )),
{
    if status == 0 {
        Ok(())
    } else {
        Err(SleepToolError::Platform(status_text("Windows error: ", status)))
    }
}

/// A Windows `BOOL` / `BOOLEAN` result: true is success.
pub fn check_success(ok: bool) -> (r: Result<(), SleepToolError>)
    ensures
        ok ==> r is Ok,
        !ok ==> (r matches Err(SleepToolError::Platform(m)) && m@
            == "Windows API returned false"@),
{
    if ok {
        Ok(())
    } else {
        let m = "Windows API returned false".to_owned();
        Err(SleepToolError::Platform(m))
    }
}

} // verus!
