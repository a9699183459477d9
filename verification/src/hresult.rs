use vstd::prelude::*;

verus! {

/// `S_OK`.
pub const S_OK: i32 = 0;

/// The failure code reported by every failed thumbnail request.
pub const FAILURE: i32 = -1;

/// `CLASS_E_CLASSNOTAVAILABLE`: the DLL does not provide the requested class.
pub const CLASS_E_CLASSNOTAVAILABLE: i32 = -2147221231;

/// `ERROR_NO_UNICODE_TRANSLATION`: a wide string held an invalid UTF-16 sequence.
pub const ERROR_NO_UNICODE_TRANSLATION: u32 = 1113;

/// The `HRESULT` that a Win32 error code maps to: codes that are zero or
/// negative as an `i32` stay as they are, the others keep their low 16 bits
/// under the facility `FACILITY_WIN32` (7) with the failure bit set.
pub open spec fn win32_hresult(code: u32) -> i32 {
    if (code as i32) <= 0 {
        code as i32
    } else {
        ((code & 0xFFFFu32) | 0x7_0000u32 | 0x8000_0000u32) as i32
    }
}

/// Calls `windows_core::HRESULT::from_win32` and hands back the code it
/// holds; the contract claims that it computes `win32_hresult`.
#[verifier::external_body]
fn hresult_from_win32(code: u32) -> (res: i32)
    ensures
        res == win32_hresult(code),
{
    windows_core::HRESULT::from_win32(code).0
}

/// The `HRESULT` reported when a wide path is not valid UTF-16.
pub fn invalid_unicode_hresult() -> (res: i32)
    ensures
        res == win32_hresult(ERROR_NO_UNICODE_TRANSLATION),
        res == -2147023783i32,
{
    let res = hresult_from_win32(ERROR_NO_UNICODE_TRANSLATION);
    assert(((1113u32 & 0xFFFFu32) | 0x7_0000u32 | 0x8000_0000u32) == 0x8007_0459u32) by (bit_vector);
    assert((0x8007_0459u32 as i32) == -2147023783i32) by (bit_vector);
    res
}

} // verus!
