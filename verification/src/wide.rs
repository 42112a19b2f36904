//! Nul-terminated wide strings of the `widestring` crate, as the library sees them.
use vstd::prelude::*;
use widestring::error::{ContainsNul, Utf16Error};
use widestring::{U16CString, U16Str};

verus! {

/// `widestring::U16CString`, carried opaquely.
#[verifier::external_type_specification]
#[verifier::external_body]
pub struct ExU16CString(U16CString);

/// `widestring::error::ContainsNul`, the error of `U16CString::from_vec`.
#[verifier::external_type_specification]
#[verifier::external_body]
#[verifier::reject_recursive_types(C)]
pub struct ExContainsNul<C>(ContainsNul<C>);

/// `widestring::error::Utf16Error`, the error of decoding ill-formed UTF-16.
#[verifier::external_type_specification]
#[verifier::external_body]
pub struct ExUtf16Error(Utf16Error);

/// The code units that a `U16CString` holds, without its nul terminator.
pub uninterp spec fn u16cstring_units(s: U16CString) -> Seq<u16>;

/// A nul unit stands somewhere before the last position.
pub open spec fn has_interior_nul(v: Seq<u16>) -> bool {
    exists|i: int| 0 <= i < v.len() - 1 && v[i] == 0
}

/// The units without one trailing nul terminator, if there is one.
pub open spec fn without_terminator(v: Seq<u16>) -> Seq<u16> {
    if v.len() > 0 && v.last() == 0 {
        v.drop_last()
    } else {
        v
    }
}

/// `U16CString::from_vec`: fails exactly when a nul stands before the last position, and
/// otherwise keeps the units, taking a trailing nul as the terminator.
#[verifier::external_body]
pub(crate) fn u16cstring_from_vec(v: Vec<u16>) -> (r: Result<U16CString, ContainsNul<u16>>)
    ensures
        match r {
            Ok(s) => !has_interior_nul(v@) && u16cstring_units(s) == without_terminator(v@),
            Err(_) => has_interior_nul(v@),
        },
{
    U16CString::from_vec(v)
}

/// `U16CString::as_slice`: the units of the string without the nul terminator.
#[verifier::external_body]
fn u16cstring_as_slice(s: &U16CString) -> (r: &[u16])
    ensures
        r@ == u16cstring_units(*s),
{
    s.as_slice()
}

/// `U16Str::to_string` on the units: decodes them as UTF-16 (surrogate pairs joined, any
/// unpaired surrogate an error) and fails exactly on ill-formed UTF-16.
#[verifier::external_body]
pub(crate) fn u16str_to_string(units: &[u16]) -> (r: Result<String, Utf16Error>)
    ensures
        match r {
            Ok(s) => crate::utf16::decode_utf16(units@) == Some(s@),
            Err(_) => crate::utf16::decode_utf16(units@) is None,
        },
{
    U16Str::from_slice(units).to_string()
}

/// The code units of a wide string, without its terminator.
pub fn wide_units(s: &U16CString) -> (r: Vec<u16>)
    ensures
        r@ == u16cstring_units(*s),
{
    vstd::slice::slice_to_vec(u16cstring_as_slice(s))
}

} // verus!
