//! Facts about Win32 values that the rest of the crate relies on.
use vstd::prelude::*;

verus! {

/// The HRESULT that Windows assigns to a Win32 error code
/// (`HRESULT_FROM_WIN32`): zero and values that are already negative as an
/// `i32` are kept, every other code is placed in the Win32 facility with the
/// failure bit set.
pub open spec fn hresult_from_win32(code: u32) -> int {
    if code == 0 {
        0
    } else if code >= 0x8000_0000 {
        code - 0x1_0000_0000
    } else {
        (code % 0x1_0000) + 0x7_0000 - 0x8000_0000
    }
}

/// `windows_core::WIN32_ERROR::to_hresult`: maps a Win32 error code to the
/// HRESULT of the Win32 facility, as `HRESULT_FROM_WIN32` does.
#[verifier::external_body]
pub(crate) fn win32_error_to_hresult(code: u32) -> (r: i32)
    ensures
        r == hresult_from_win32(code),
{
    windows_core::WIN32_ERROR(code).to_hresult().0
}

/// Whether a UTF-16 code unit is a high (leading) surrogate.
pub open spec fn is_high_surrogate(u: u16) -> bool {
    0xD800 <= u <= 0xDBFF
}

/// Whether a UTF-16 code unit is a low (trailing) surrogate.
pub open spec fn is_low_surrogate(u: u16) -> bool {
    0xDC00 <= u <= 0xDFFF
}

/// The characters that a sequence of UTF-16 code units encodes, or `None`
/// when it holds an unpaired surrogate.
pub open spec fn utf16_decode(units: Seq<u16>) -> Option<Seq<char>>
    decreases units.len(),
{
    if units.len() == 0 {
        Some(Seq::empty())
    } else if !is_high_surrogate(units[0]) && !is_low_surrogate(units[0]) {
        match utf16_decode(units.drop_first()) {
            Some(rest) => Some(seq![units[0] as char] + rest),
            None => None,
        }
    } else if is_high_surrogate(units[0]) && units.len() >= 2 && is_low_surrogate(units[1]) {
        let scalar = 0x1_0000 + (units[0] - 0xD800) * 0x400 + (units[1] - 0xDC00);
        match utf16_decode(units.subrange(2, units.len() as int)) {
            Some(rest) => Some(seq![scalar as char] + rest),
            None => None,
        }
    } else {
        None
    }
}

/// The code units did not form valid UTF-16.
#[derive(Clone, Copy, Debug, PartialEq, Eq)]
pub struct Utf16Error;

/// `String::from_utf16`: decodes UTF-16 code units into a `String`, failing
/// exactly when the units hold an unpaired surrogate.
#[verifier::external_body]
pub(crate) fn string_from_utf16(units: &[u16]) -> (r: Result<String, Utf16Error>)
    ensures
        r is Ok <==> utf16_decode(units@) is Some,
        r matches Ok(s) ==> s@ == utf16_decode(units@)->0,
{
    String::from_utf16(units).map_err(|_| Utf16Error)
}

/// Every Win32 error code other than success becomes a failure HRESULT, and
/// a code below `0x1_0000` can be read back from the low half of its HRESULT
/// in the Win32 facility (`0x8007_xxxx`).
pub proof fn lemma_win32_failure_is_failure(code: u32)
    ensures
        code == 0 <==> hresult_from_win32(code) == 0,
        code != 0 ==> hresult_from_win32(code) < 0,
        0 < code < 0x1_0000 ==> hresult_from_win32(code) + 0x1_0000_0000 == 0x8007_0000 + code,
{
}

/// Code units that are not surrogates decode one character each, in order,
/// for sequences of any length.
pub proof fn lemma_utf16_decode_without_surrogates(units: Seq<u16>)
    requires
        forall|i: int|
            0 <= i < units.len() ==> !is_high_surrogate(#[trigger] units[i]) && !is_low_surrogate(
                units[i],
            ),
    ensures
        utf16_decode(units) matches Some(t) && t.len() == units.len() && forall|i: int|
            0 <= i < units.len() ==> #[trigger] t[i] == units[i] as char,
    decreases units.len(),
{
    if units.len() > 0 {
        let rest = units.drop_first();
        assert forall|i: int| 0 <= i < rest.len() implies !is_high_surrogate(#[trigger] rest[i])
            && !is_low_surrogate(rest[i]) by {
            assert(rest[i] == units[i + 1]);
        }
        lemma_utf16_decode_without_surrogates(rest);
        assert(!is_high_surrogate(units[0]) && !is_low_surrogate(units[0]));
        let t = utf16_decode(units)->0;
        let tr = utf16_decode(rest)->0;
        assert(t == seq![units[0] as char] + tr);
        assert forall|i: int| 0 <= i < units.len() implies #[trigger] t[i] == units[i] as char by {
            if i > 0 {
                assert(t[i] == tr[i - 1]);
                assert(rest[i - 1] == units[i]);
            }
        }
    }
}

} // verus!
