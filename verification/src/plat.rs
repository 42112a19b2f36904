//! Platform strings: text that is either Unicode or raw wide code units.
use vstd::prelude::*;
use widestring::U16CString;

use crate::error::{CrossError, CrossResult};
use crate::utf16::{
    decode_utf16, encode_char_utf16, encode_utf16, lemma_decode_encode, lemma_encode_decode,
};
use crate::wide::{
    has_interior_nul, u16cstring_from_vec, u16cstring_units, u16str_to_string,
    without_terminator,
};

verus! {

/// An owned platform string: Unicode text, or raw wide code units as the system gave them
/// (those that did not decode as UTF-16).
#[derive(Debug, Clone, PartialEq, Eq)]
pub enum PlatString {
    String(String),
    OsString(Vec<u16>),
}

/// A borrowed platform string.
#[derive(Debug, Clone, Copy, PartialEq, Eq)]
pub enum PlatStr<'a> {
    Str(&'a str),
    OsStr(&'a [u16]),
}

/// The abstract value of a platform string.
pub enum PlatStringView {
    /// Unicode text.
    Utf8(Seq<char>),
    /// Raw wide code units.
    Wide(Seq<u16>),
}

impl View for PlatString {
    type V = PlatStringView;

    open spec fn view(&self) -> PlatStringView {
        match self {
            PlatString::String(s) => PlatStringView::Utf8(s@),
            PlatString::OsString(u) => PlatStringView::Wide(u@),
        }
    }
}

impl<'a> View for PlatStr<'a> {
    type V = PlatStringView;

    open spec fn view(&self) -> PlatStringView {
        match self {
            PlatStr::Str(s) => PlatStringView::Utf8(s@),
            PlatStr::OsStr(u) => PlatStringView::Wide(u@),
        }
    }
}

/// The wide code units of a platform string: Unicode text encoded as UTF-16, raw units as
/// they are.
pub open spec fn wide_form(v: PlatStringView) -> Seq<u16> {
    match v {
        PlatStringView::Utf8(s) => encode_utf16(s),
        PlatStringView::Wide(u) => u,
    }
}

/// The platform string read from wide code units: Unicode text when they are well-formed
/// UTF-16, the raw units otherwise.
pub open spec fn from_wide_view(u: Seq<u16>) -> PlatStringView {
    match decode_utf16(u) {
        Some(s) => PlatStringView::Utf8(s),
        None => PlatStringView::Wide(u),
    }
}

/// What `to_wide` gives for a platform string: the nul-terminated wide string of its wide
/// form, or a string error when a nul stands inside it.
pub open spec fn to_wide_ok(v: PlatStringView, w: U16CString) -> bool {
    !has_interior_nul(wide_form(v)) && u16cstring_units(w) == without_terminator(wide_form(v))
}

/// Encodes a platform string as a nul-terminated wide string.
fn wide_c_string_of(s: PlatStr<'_>) -> (r: CrossResult<U16CString>)
    ensures
        match r {
            Ok(w) => to_wide_ok(s@, w),
            Err(e) => has_interior_nul(wide_form(s@)) && e == CrossError::String,
        },
{
    let units: Vec<u16> = match s {
        PlatStr::Str(t) => crate::utf16::encode_str_utf16(t),
        PlatStr::OsStr(u) => vstd::slice::slice_to_vec(u),
    };
    match u16cstring_from_vec(units) {
        Ok(w) => Ok(w),
        Err(_) => Err(CrossError::String),
    }
}

impl PlatString {
    /// Borrows the platform string.
    pub fn as_plat_str(&self) -> (r: PlatStr<'_>)
        ensures
            r@ == self@,
    {
        match self {
            PlatString::String(s) => PlatStr::Str(s.as_str()),
            PlatString::OsString(u) => PlatStr::OsStr(u.as_slice()),
        }
    }

    /// Reads a platform string from wide code units (without a terminator): Unicode text when
    /// they are well-formed UTF-16, the units themselves otherwise.
    pub fn from_wide(units: &[u16]) -> (r: PlatString)
        ensures
            r@ == from_wide_view(units@),
    {
        match u16str_to_string(units) {
            Ok(s) => PlatString::String(s),
            Err(_) => PlatString::OsString(vstd::slice::slice_to_vec(units)),
        }
    }

    /// Encodes the platform string as a nul-terminated wide string. Fails with a string error
    /// exactly when a nul stands inside its wide form; a trailing nul is taken as the
    /// terminator.
    pub fn to_wide(&self) -> (r: CrossResult<U16CString>)
        ensures
            match r {
                Ok(w) => to_wide_ok(self@, w),
                Err(e) => has_interior_nul(wide_form(self@)) && e == CrossError::String,
            },
    {
        wide_c_string_of(self.as_plat_str())
    }
}

impl<'a> PlatStr<'a> {
    /// Copies the borrowed platform string into an owned one.
    pub fn to_plat_string(&self) -> (r: PlatString)
        ensures
            r@ == self@,
    {
        match self {
            PlatStr::Str(s) => PlatString::String((*s).to_owned()),
            PlatStr::OsStr(u) => PlatString::OsString(vstd::slice::slice_to_vec(*u)),
        }
    }

    /// Encodes the platform string as a nul-terminated wide string. Fails with a string error
    /// exactly when a nul stands inside its wide form; a trailing nul is taken as the
    /// terminator.
    pub fn to_wide(&self) -> (r: CrossResult<U16CString>)
        ensures
            match r {
                Ok(w) => to_wide_ok(self@, w),
                Err(e) => has_interior_nul(wide_form(self@)) && e == CrossError::String,
            },
    {
        wide_c_string_of(*self)
    }
}

impl<'a> TryFrom<PlatStr<'a>> for U16CString {
    type Error = CrossError;

    /// Encodes the platform string as a nul-terminated wide string, as `PlatStr::to_wide`.
    fn try_from(value: PlatStr<'a>) -> (r: Result<U16CString, CrossError>)
        ensures
            match r {
                Ok(w) => to_wide_ok(value@, w),
                Err(e) => has_interior_nul(wide_form(value@)) && e == CrossError::String,
            },
    {
        value.to_wide()
    }
}

impl<'a> vstd::std_specs::convert::TryFromSpecImpl<PlatStr<'a>> for U16CString {
    /// The wide string is named, not built, by the contract of `try_from`, so the conversion
    /// has no closed-form spec.
    open spec fn obeys_try_from_spec() -> bool {
        false
    }

    open spec fn try_from_spec(v: PlatStr<'a>) -> Result<U16CString, CrossError> {
        vstd::pervasive::arbitrary()
    }
}

/// Reading a platform string from wide code units keeps them: its wide form is the units read.
pub proof fn law_from_wide_keeps_units(u: Seq<u16>)
    ensures
        wide_form(from_wide_view(u)) == u,
{
    if decode_utf16(u) is Some {
        lemma_encode_decode(u);
    }
}

/// Unicode text survives its wide form: reading the UTF-16 encoding of text gives the text.
pub proof fn law_text_survives_wide_form(s: Seq<char>)
    ensures
        from_wide_view(encode_utf16(s)) == PlatStringView::Utf8(s),
{
    lemma_decode_encode(s);
}

/// The units of a character hold a nul exactly for the nul character, and never in the first of
/// two units.
proof fn lemma_char_units_nul(c: char)
    ensures
        encode_char_utf16(c).contains(0) <==> c == '\0',
        encode_char_utf16(c).len() == 2 ==> encode_char_utf16(c)[0] != 0,
{
    let v = c as int;
    let ec = encode_char_utf16(c);
    if v < 0x10000 {
        assert(ec[0] == v as u16);
        assert(ec[0] == v);
        if c == '\0' {
            assert(ec[0] == 0);
        }
    } else {
        let w = v - 0x10000;
        assert(0 <= w < 0x100000);
        assert(0 <= w / 0x400 < 0x400) by (nonlinear_arith)
            requires 0 <= w < 0x100000;
        assert(0 <= w % 0x400 < 0x400) by (nonlinear_arith)
            requires 0 <= w;
        assert(ec[0] != 0 && ec[1] != 0);
    }
}

/// The UTF-16 encoding of text holds a nul unit before its last position exactly when the text
/// holds a nul character before its last position.
pub proof fn law_text_interior_nul(s: Seq<char>)
    ensures
        has_interior_nul(encode_utf16(s)) <==> exists|i: int| 0 <= i < s.len() - 1 && s[i] == '\0',
    decreases s.len(),
{
    if s.len() == 0 {
    } else {
        let c = s[0];
        let rest = s.drop_first();
        let ec = encode_char_utf16(c);
        let er = encode_utf16(rest);
        let e = encode_utf16(s);
        assert(e == ec + er);
        lemma_char_units_nul(c);
        if rest.len() == 0 {
            assert(er.len() == 0);
            assert(e =~= ec);
            if has_interior_nul(e) {
                let i = choose|i: int| 0 <= i < e.len() - 1 && e[i] == 0;
                assert(e[0] != 0);
            }
        } else {
            law_text_interior_nul(rest);
            assert(er.len() >= 1) by {
                assert(er == encode_char_utf16(rest[0]) + encode_utf16(rest.drop_first()));
            }
            if has_interior_nul(e) {
                let i = choose|i: int| 0 <= i < e.len() - 1 && e[i] == 0;
                if i < ec.len() {
                    assert(ec[i] == 0);
                    assert(ec.contains(0));
                    assert(0 <= 0 < s.len() - 1 && s[0] == '\0');
                } else {
                    assert(er[i - ec.len()] == 0);
                    let j = choose|j: int| 0 <= j < rest.len() - 1 && rest[j] == '\0';
                    assert(s[j + 1] == '\0');
                }
            }
            if exists|i: int| 0 <= i < s.len() - 1 && s[i] == '\0' {
                let i = choose|i: int| 0 <= i < s.len() - 1 && s[i] == '\0';
                if i == 0 {
                    assert(ec.contains(0));
                    let k = choose|k: int| 0 <= k < ec.len() && ec[k] == 0;
                    assert(e[k] == 0);
                } else {
                    assert(rest[i - 1] == '\0');
                    assert(has_interior_nul(er));
                    let k = choose|k: int| 0 <= k < er.len() - 1 && er[k] == 0;
                    assert(e[k + ec.len()] == 0);
                }
            }
        }
    }
}

/// A platform string read from nul-free wide units converts back to exactly those units.
pub proof fn law_from_wide_then_to_wide(u: Seq<u16>)
    requires
        !u.contains(0),
    ensures
        !has_interior_nul(wide_form(from_wide_view(u))),
        without_terminator(wide_form(from_wide_view(u))) == u,
{
    law_from_wide_keeps_units(u);
    if has_interior_nul(u) {
        let i = choose|i: int| 0 <= i < u.len() - 1 && u[i] == 0;
        assert(u.contains(0));
    }
    if u.len() > 0 {
        assert(u.contains(u.last()));
    }
}

/// A platform string whose wide form holds no nul converts to a wide string that reads back as
/// the same string; text reads back as the very same text.
pub proof fn law_to_wide_then_from_wide(v: PlatStringView)
    requires
        !wide_form(v).contains(0),
    ensures
        !has_interior_nul(wide_form(v)),
        without_terminator(wide_form(v)) == wide_form(v),
        from_wide_view(without_terminator(wide_form(v))) == from_wide_view(wide_form(v)),
        v is Utf8 ==> from_wide_view(without_terminator(wide_form(v))) == v,
{
    let u = wide_form(v);
    if has_interior_nul(u) {
        let i = choose|i: int| 0 <= i < u.len() - 1 && u[i] == 0;
        assert(u.contains(0));
    }
    if u.len() > 0 {
        assert(u.contains(u.last()));
    }
    if let PlatStringView::Utf8(s) = v {
        law_text_survives_wide_form(s);
    }
}

/// Text without nul characters always converts to a wide string.
pub proof fn law_nul_free_text_converts(s: Seq<char>)
    requires
        !s.contains('\0'),
    ensures
        !has_interior_nul(wide_form(PlatStringView::Utf8(s))),
{
    law_text_interior_nul(s);
    if exists|i: int| 0 <= i < s.len() - 1 && s[i] == '\0' {
        let i = choose|i: int| 0 <= i < s.len() - 1 && s[i] == '\0';
        assert(s.contains(s[i]));
    }
}

} // verus!
